//! The syntax table: a read-only mapping from keyword roles to the literal
//! keyword strings the lexer recognizes.
//!
//! The table is built once, before lexing begins, and is only read
//! afterwards; independent compilations may share it.

use vstd::prelude::*;

verus! {

/// The configured keyword strings, one per keyword role.
#[derive(Debug)]
pub struct Syntax {
    pub print: String,
    pub mutable_decl: String,
    pub constant_decl: String,
    pub function_def: String,
    pub conditional: String,
    pub _else: String,
    pub else_if: String,
    pub drop: String,
    pub integer: String,
    pub biginteger: String,
    pub lowinteger: String,
    pub string: String,
    pub _loop: String,
    pub len: String,
    pub input: String,
    pub listtype: String,
    pub bool_name: String,
    pub return_name: String,
}

impl Clone for Syntax {
    /// Clones preserve every keyword exactly.
    fn clone(&self) -> (res: Self)
        ensures
            res == *self,
    {
        Syntax {
            print: self.print.clone(),
            mutable_decl: self.mutable_decl.clone(),
            constant_decl: self.constant_decl.clone(),
            function_def: self.function_def.clone(),
            conditional: self.conditional.clone(),
            _else: self._else.clone(),
            else_if: self.else_if.clone(),
            drop: self.drop.clone(),
            integer: self.integer.clone(),
            biginteger: self.biginteger.clone(),
            lowinteger: self.lowinteger.clone(),
            string: self.string.clone(),
            _loop: self._loop.clone(),
            len: self.len.clone(),
            input: self.input.clone(),
            listtype: self.listtype.clone(),
            bool_name: self.bool_name.clone(),
            return_name: self.return_name.clone(),
        }
    }
}

impl Syntax {
    /// Whether the given word is one of the configured primitive-type
    /// keywords.
    pub open spec fn spec_is_type_str(self, word: Seq<char>) -> bool {
        ||| word == self.string@
        ||| word == self.integer@
        ||| word == self.biginteger@
        ||| word == self.lowinteger@
    }

    /// Decides whether a word is one of the configured primitive-type
    /// keywords.
    pub fn is_type_str(&self, word: &str) -> (r: bool)
        ensures
            r == self.spec_is_type_str(word@),
    {
        crate::strutil::str_eq(word, self.string.as_str())
            || crate::strutil::str_eq(word, self.integer.as_str())
            || crate::strutil::str_eq(word, self.biginteger.as_str())
            || crate::strutil::str_eq(word, self.lowinteger.as_str())
    }
}

impl core::default::Default for Syntax {
    /// The stock keyword table of the language.
    fn default() -> (res: Self)
        ensures
            res.print@ == "çap"@,
            res.mutable_decl@ == "dəyişən"@,
            res.constant_decl@ == "sabit"@,
            res.function_def@ == "funksiya"@,
            res.conditional@ == "əgər"@,
            res._else@ == "yoxsa"@,
            res.else_if@ == "yoxsa əgər"@,
            res.drop@ == "sil"@,
            res.integer@ == "ədəd"@,
            res.biginteger@ == "böyükədəd"@,
            res.lowinteger@ == "kiçikədəd"@,
            res.string@ == "mətn"@,
            res._loop@ == "gəz"@,
            res.len@ == "uzunluq"@,
            res.input@ == "giriş"@,
            res.listtype@ == "siyahı"@,
            res.bool_name@ == "bool"@,
            res.return_name@ == "qaytar"@,
    {
        Syntax {
            print: "çap".to_owned(),
            mutable_decl: "dəyişən".to_owned(),
            constant_decl: "sabit".to_owned(),
            function_def: "funksiya".to_owned(),
            conditional: "əgər".to_owned(),
            _else: "yoxsa".to_owned(),
            else_if: "yoxsa əgər".to_owned(),
            drop: "sil".to_owned(),
            integer: "ədəd".to_owned(),
            biginteger: "böyükədəd".to_owned(),
            lowinteger: "kiçikədəd".to_owned(),
            string: "mətn".to_owned(),
            _loop: "gəz".to_owned(),
            len: "uzunluq".to_owned(),
            input: "giriş".to_owned(),
            listtype: "siyahı".to_owned(),
            bool_name: "bool".to_owned(),
            return_name: "qaytar".to_owned(),
        }
    }
}

} // verus!
