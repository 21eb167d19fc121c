//! The list method table of the code generator.

use vstd::prelude::*;

use crate::strutil::str_eq;
use crate::transpiler::genspec::{spec_list_method, views_of};

verus! {

broadcast use vstd::string::group_string_axioms;

/// Renders a method call on a list value. The method name selects a
/// fixed target-language form; mutability decides whether length goes
/// through the backing storage. An unknown method is an error.
pub fn transpile_list_method_call(
    target_code: &str,
    method: &str,
    args_code: &Vec<String>,
    is_mutable: bool,
) -> (r: Result<String, String>)
    ensures
        r matches Ok(s) ==> spec_list_method(
            target_code@,
            method@,
            views_of(args_code@),
            is_mutable,
        ) == Some(s@),
        r is Err ==> spec_list_method(
            target_code@,
            method@,
            views_of(args_code@),
            is_mutable,
        ) is None,
{
    proof {
        reveal_strlit("əlavə_et");
        reveal_strlit("sil");
        reveal_strlit("sıralı_sil");
        reveal_strlit("sırala");
        reveal_strlit("əks_sırala");
        reveal_strlit("uzunluq");
        reveal_strlit("boşdur");
        assert("əlavə_et"@.len() == 8);
        assert("sil"@.len() == 3);
        assert("sıralı_sil"@.len() == 10);
        assert("sırala"@.len() == 6);
        assert("əks_sırala"@.len() == 10);
        assert("uzunluq"@.len() == 7);
        assert("boşdur"@.len() == 6);
        assert("sırala"@[0] != "boşdur"@[0]);
        assert("sıralı_sil"@[0] != "əks_sırala"@[0]);
    }
    if str_eq(method, "əlavə_et") {
        if args_code.len() < 1 {
            return Err("əlavə_et metodu arqument gözləyir".to_owned());
        }
        let mut s = "try ".to_owned();
        s.push_str(target_code);
        s.push_str(".append(");
        s.push_str(args_code[0].as_str());
        s.push_str(");");
        Ok(s)
    } else if str_eq(method, "sil") {
        if args_code.len() < 1 {
            return Err("sil metodu arqument gözləyir".to_owned());
        }
        let mut s = "_ = ".to_owned();
        s.push_str(target_code);
        s.push_str(".swapRemove(");
        s.push_str(args_code[0].as_str());
        s.push_str(");");
        Ok(s)
    } else if str_eq(method, "sıralı_sil") {
        if args_code.len() < 1 {
            return Err("sıralı_sil metodu arqument gözləyir".to_owned());
        }
        let mut s = "_ = ".to_owned();
        s.push_str(target_code);
        s.push_str(".orderedRemove(");
        s.push_str(args_code[0].as_str());
        s.push_str(");");
        Ok(s)
    } else if str_eq(method, "sırala") {
        let mut s = "std.mem.sort(usize, ".to_owned();
        s.push_str(target_code);
        s.push_str(".items, { }, std.sort.asc(usize));");
        Ok(s)
    } else if str_eq(method, "əks_sırala") {
        let mut s = "std.mem.sort(usize, ".to_owned();
        s.push_str(target_code);
        s.push_str(".items, { }, std.sort.desc(usize));");
        Ok(s)
    } else if str_eq(method, "uzunluq") {
        let mut s = target_code.to_owned();
        if is_mutable {
            s.push_str(".items.len");
        } else {
            s.push_str(".len");
        }
        Ok(s)
    } else if str_eq(method, "boşdur") {
        let mut s = target_code.to_owned();
        s.push_str(".is_empty()");
        Ok(s)
    } else {
        Err("dəstəklənmir".to_owned())
    }
}

} // verus!
