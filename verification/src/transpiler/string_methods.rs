//! The text method table of the code generator.

use vstd::prelude::*;

use crate::strutil::{concat3, str_eq, usize_to_string};
use crate::transpiler::context::TranspileContext;
use crate::transpiler::genspec::{gstate, spec_gen_strmethod, views_of};

verus! {

broadcast use vstd::string::group_string_axioms;

/// Renders a method call on a text value, setting the allocator and
/// split helper flags the rendered form needs. `None` means the method
/// is unknown for text or its arguments do not fit.
///
/// Splitting a quoted literal uses the fixed-capacity split helper, with
/// the literal's character count (intended, also for non-ASCII text) as
/// the part bound; splitting anything else uses the allocating one.
pub fn transpile_string_method_call(
    target_code: &str,
    method: &str,
    args_code: &Vec<String>,
    ctx: &mut TranspileContext,
) -> (r: Option<String>)
    ensures
        old(ctx).evolves_to(*final(ctx)),
        r matches Some(s) ==> spec_gen_strmethod(
            target_code@,
            method@,
            views_of(args_code@),
            gstate(*old(ctx)),
        ) == Some((s@, gstate(*final(ctx)))),
        r is None ==> spec_gen_strmethod(
            target_code@,
            method@,
            views_of(args_code@),
            gstate(*old(ctx)),
        ) is None && *final(ctx) == *old(ctx),
{
    proof {
        reveal_strlit("böyüt");
        reveal_strlit("kiçilt");
        reveal_strlit("böl");
        reveal_strlit("kənar_təmizlə");
        reveal_strlit("uzunluq");
        reveal_strlit("boşdur");
        reveal_strlit("sırala");
        reveal_strlit("əvəzlə");
        reveal_strlit("kəs");
        reveal_strlit("birləşdir");
        assert("böyüt"@.len() == 5);
        assert("kiçilt"@.len() == 6);
        assert("böl"@.len() == 3);
        assert("kənar_təmizlə"@.len() == 13);
        assert("uzunluq"@.len() == 7);
        assert("boşdur"@.len() == 6);
        assert("sırala"@.len() == 6);
        assert("əvəzlə"@.len() == 6);
        assert("kəs"@.len() == 3);
        assert("birləşdir"@.len() == 9);
        assert("kiçilt"@[0] != "boşdur"@[0]);
        assert("kiçilt"@[0] != "sırala"@[0]);
        assert("kiçilt"@[0] != "əvəzlə"@[0]);
        assert("boşdur"@[0] != "sırala"@[0]);
        assert("boşdur"@[0] != "əvəzlə"@[0]);
        assert("böl"@[0] != "kəs"@[0]);
        reveal_strlit("");
        assert(""@.len() == 0);
    }
    if str_eq(method, "böyüt") {
        ctx.needs_allocator = true;
        let mut s = "\n    for (".to_owned();
        s.push_str(target_code);
        s.push_str(") |*ch| {\n        ch.* = std.ascii.toUpper(ch.*);\n    }\n    ");
        Some(s)
    } else if str_eq(method, "kiçilt") {
        ctx.needs_allocator = true;
        let mut s = "\n    for (".to_owned();
        s.push_str(target_code);
        s.push_str(") |*ch| {\n        ch.* = std.ascii.toLower(ch.*);\n    }\n    ");
        Some(s)
    } else if str_eq(method, "böl") {
        if args_code.len() != 1 {
            return None;
        }
        let delimiter = args_code[0].as_str();
        let n = target_code.unicode_len();
        let quoted = n >= 2 && target_code.get_char(0) == '"' && target_code.get_char(n - 1)
            == '"';
        if quoted {
            ctx.used_split_n_fn = true;
            let max_parts = usize_to_string(n);
            let mut s = "({\n    var result = splitN(".to_owned();
            s.push_str(target_code);
            s.push_str(", ");
            s.push_str(delimiter);
            s.push_str(", ");
            s.push_str(max_parts.as_str());
            s.push_str(");\n    result.parts[0..result.len];\n})");
            Some(s)
        } else {
            ctx.used_split_auto_fn = true;
            ctx.needs_allocator = true;
            let mut s = "try splitAuto(allocator, ".to_owned();
            s.push_str(target_code);
            s.push_str(", ");
            s.push_str(delimiter);
            s.push_str(")");
            Some(s)
        }
    } else if str_eq(method, "kənar_təmizlə") {
        Some(concat3(target_code, ".trim()", ""))
    } else if str_eq(method, "uzunluq") {
        Some(concat3(target_code, ".len()", ""))
    } else if str_eq(method, "boşdur") {
        Some(concat3(target_code, ".is_empty()", ""))
    } else if str_eq(method, "sırala") {
        if args_code.len() == 0 {
            let mut s = "std.mem.sort(u8, ".to_owned();
            s.push_str(target_code);
            s.push_str(".items, ");
            s.push_str(target_code);
            s.push_str(", std.sort.asc(u8));");
            Some(s)
        } else {
            None
        }
    } else if str_eq(method, "əvəzlə") {
        if args_code.len() == 2 {
            ctx.needs_allocator = true;
            let mut s = "\n    ".to_owned();
            s.push_str(target_code);
            s.push_str(" = try std.mem.replaceOwned(u8,allocator, ");
            s.push_str(target_code);
            s.push_str(", ");
            s.push_str(args_code[0].as_str());
            s.push_str(", ");
            s.push_str(args_code[1].as_str());
            s.push_str(");\n    ");
            Some(s)
        } else {
            None
        }
    } else if str_eq(method, "kəs") {
        if args_code.len() == 2 {
            ctx.needs_allocator = true;
            let mut s = "\n    ".to_owned();
            s.push_str(target_code);
            s.push_str(" = try allocator.dupe(u8, ");
            s.push_str(target_code);
            s.push_str("[");
            s.push_str(args_code[0].as_str());
            s.push_str("..");
            s.push_str(args_code[1].as_str());
            s.push_str("]);\n    ");
            Some(s)
        } else {
            None
        }
    } else if str_eq(method, "birləşdir") {
        if args_code.len() < 1 {
            return None;
        }
        ctx.needs_allocator = true;
        let mut s = "\n    ".to_owned();
        s.push_str(target_code);
        s.push_str(" = try std.mem.concat(allocator, u8, &[_][]const u8{ ");
        s.push_str(target_code);
        s.push_str(", ");
        s.push_str(args_code[0].as_str());
        s.push_str(" });\n    ");
        Some(s)
    } else {
        None
    }
}

} // verus!
