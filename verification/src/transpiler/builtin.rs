//! The built-in function table and the print format specifiers.

use vstd::prelude::*;

use crate::ast::{BuiltInFunction, Type};
use crate::strutil::str_eq;

verus! {

/// The built-in function a name resolves to, if any; each built-in has a
/// native-language and an English name.
pub open spec fn spec_match_builtin(name: Seq<char>) -> Option<BuiltInFunction> {
    if name == "çap"@ || name == "print"@ {
        Some(BuiltInFunction::Print)
    } else if name == "giriş"@ || name == "input"@ {
        Some(BuiltInFunction::Input)
    } else if name == "uzunluq"@ || name == "len"@ {
        Some(BuiltInFunction::Len)
    } else if name == "ədəd"@ || name == "number"@ {
        Some(BuiltInFunction::Number)
    } else if name == "cəm"@ || name == "sum"@ {
        Some(BuiltInFunction::Sum)
    } else {
        None
    }
}

/// Resolves a name against the closed built-in table.
pub fn match_builtin(name: &str) -> (r: Option<BuiltInFunction>)
    ensures
        r == spec_match_builtin(name@),
{
    if str_eq(name, "çap") || str_eq(name, "print") {
        Some(BuiltInFunction::Print)
    } else if str_eq(name, "giriş") || str_eq(name, "input") {
        Some(BuiltInFunction::Input)
    } else if str_eq(name, "uzunluq") || str_eq(name, "len") {
        Some(BuiltInFunction::Len)
    } else if str_eq(name, "ədəd") || str_eq(name, "number") {
        Some(BuiltInFunction::Number)
    } else if str_eq(name, "cəm") || str_eq(name, "sum") {
        Some(BuiltInFunction::Sum)
    } else {
        None
    }
}

/// The print format specifier for each type.
pub open spec fn spec_format_str(typ: Type) -> Seq<char> {
    match typ {
        Type::Metn => "{s}"@,
        Type::Integer => "{}"@,
        Type::BigInteger => "{}"@,
        Type::LowInteger => "{}"@,
        Type::Bool => "{}"@,
        Type::Char => "{c}"@,
        Type::Any => "{any}"@,
        Type::Siyahi(_) => "{any} "@,
        Type::Istifadeci(_) => "{any}"@,
    }
}

/// Chooses the format specifier from a value's validated type.
pub fn get_format_str_from_type(typ: &Type) -> (r: &'static str)
    ensures
        r@ == spec_format_str(*typ),
{
    match typ {
        Type::Metn => "{s}",
        Type::Integer => "{}",
        Type::BigInteger => "{}",
        Type::LowInteger => "{}",
        Type::Bool => "{}",
        Type::Char => "{c}",
        Type::Any => "{any}",
        Type::Siyahi(_) => "{any} ",
        Type::Istifadeci(_) => "{any}",
    }
}

} // verus!
