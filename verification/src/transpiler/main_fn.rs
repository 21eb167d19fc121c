//! Program finalization: assembles the generated source in a fixed order.

use vstd::prelude::*;

use crate::ast::{Expr, Program};
use crate::strutil::str_eq;
use crate::transpiler::context::{TranspileContext, contains_name, lemma_evolves_trans};
use crate::transpiler::expr::transpile_expr;
use crate::transpiler::genspec::{
    gstate, spec_cleanups_acc, spec_gen_body, spec_gen_main, spec_imports_acc, views_of,
};

verus! {

fn gen_body(exprs: &Vec<Expr>, i: usize, acc: String, ctx: &mut TranspileContext) -> (r: Result<
    String,
    String,
>)
    ensures
        old(ctx).evolves_to(*final(ctx)),
        r matches Ok(s) ==> spec_gen_body(exprs@, i as int, acc@, gstate(*old(ctx))) == Some(
            (s@, gstate(*final(ctx))),
        ),
        r is Err ==> spec_gen_body(exprs@, i as int, acc@, gstate(*old(ctx))) is None,
    decreases exprs@, 0int, exprs@.len() - i,
{
    if i >= exprs.len() {
        proof {
            crate::transpiler::context::lemma_evolves_refl(*ctx);
        }
        Ok(acc)
    } else {
        let line = match transpile_expr(&exprs[i], ctx) {
            Ok(s) => s,
            Err(e) => {
                return Err(e);
            },
        };
        let ghost mid = *ctx;
        let mut acc2 = acc;
        acc2.push_str("    ");
        acc2.push_str(line.as_str());
        acc2.push_str("\n");
        let r = gen_body(exprs, i + 1, acc2, ctx);
        proof {
            lemma_evolves_trans(*old(ctx), mid, *ctx);
        }
        r
    }
}

fn emit_imports(imports: &Vec<String>, k: usize, acc: String) -> (r: String)
    ensures
        r@ == spec_imports_acc(views_of(imports@), k as int, acc@),
    decreases imports@.len() - k,
{
    if k >= imports.len() {
        acc
    } else {
        proof {
            assert(views_of(imports@)[k as int] == imports@[k as int]@);
        }
        if str_eq(imports[k].as_str(), "const std = @import(\"std\");") {
            emit_imports(imports, k + 1, acc)
        } else {
            let mut a = acc;
            a.push_str(imports[k].as_str());
            a.push_str("\n");
            emit_imports(imports, k + 1, a)
        }
    }
}

fn emit_cleanups(cleanups: &Vec<String>, j: usize, acc: String) -> (r: String)
    ensures
        r@ == spec_cleanups_acc(views_of(cleanups@), j as int, acc@),
    decreases cleanups@.len() - j,
{
    if j >= cleanups.len() {
        acc
    } else {
        proof {
            assert(views_of(cleanups@)[j as int] == cleanups@[j as int]@);
        }
        let mut a = acc;
        a.push_str("    ");
        a.push_str(cleanups[j].as_str());
        a.push_str("\n");
        emit_cleanups(cleanups, j + 1, a)
    }
}

/// Assembles the whole generated program, exactly as `spec_gen_main`
/// states it: one fixed standard-import line unless the import list
/// already holds it, the accumulated additional imports, one fixed
/// source block for each runtime-helper flag that was set, the entry
/// point with its allocator and standard-output preamble lines when
/// their flags are set, the generated body lines in original program
/// order, and the accumulated cleanup statements. No helper block is
/// emitted for an unset flag.
pub fn generate_main_fn(program: &Program, ctx: &mut TranspileContext) -> (r: Result<
    String,
    String,
>)
    ensures
        old(ctx).evolves_to(*final(ctx)),
        r matches Ok(s) ==> spec_gen_main(program.expressions@, gstate(*old(ctx))) == Some(
            (s@, gstate(*final(ctx))),
        ),
        r is Err ==> spec_gen_main(program.expressions@, gstate(*old(ctx))) is None,
{
    let body = match gen_body(&program.expressions, 0, String::new(), ctx) {
        Ok(b) => b,
        Err(e) => {
            return Err(e);
        },
    };
    let ghost g1 = *ctx;

    let std_import = "const std = @import(\"std\");";
    let has_std = {
        let m = ctx.imports.len();
        let mut k: usize = 0;
        let mut f = false;
        while k < m
            invariant
                m == ctx.imports@.len(),
                k <= m,
                f == exists|j: int| 0 <= j < k && ctx.imports@[j]@ == std_import@,
            decreases m - k,
        {
            if str_eq(ctx.imports[k].as_str(), std_import) {
                f = true;
                proof {
                    assert(ctx.imports@[k as int]@ == std_import@);
                }
            }
            k += 1;
        }
        proof {
            if f {
                let j = choose|j: int| 0 <= j < m && ctx.imports@[j]@ == std_import@;
                assert(ctx.imports_view()[j] == std_import@);
            } else {
                assert forall|j: int|
                    0 <= j < ctx.imports_view().len() implies ctx.imports_view()[j]
                    != std_import@ by {
                    assert(ctx.imports_view()[j] == ctx.imports@[j]@);
                }
            }
            assert(f == contains_name(ctx.imports_view(), std_import@));
        }
        f
    };

    let mut zig_code = String::new();
    if !has_std {
        zig_code.push_str(std_import);
        zig_code.push_str("\n");
    }
    let zig_code = emit_imports(&ctx.imports, 0, zig_code);
    let mut zig_code = zig_code;

    if ctx.used_input_fn {
        zig_code.push_str(
            "\n \npub fn input(prompt: []const u8, buf: []u8) ![]u8 {\n    const stdin = std.io.getStdIn().reader();\n    std.debug.print(\"{s} \", .{prompt});\n    if (try stdin.readUntilDelimiterOrEof(buf, '\\n')) |line| {\n        return line;\n    } else {\n        return error.EmptyInput;\n    }\n}\n    ",
        );
    }

    if ctx.used_sum_fn {
        zig_code.push_str(
            "\n    pub fn sum(comptime T: type, list: []const T) T {\n        var total: T = 0;\n        for (list) |item| {\n            total += item;\n        }\n        return total;\n    }\n    ",
        );
    }

    if ctx.used_split_n_fn {
        zig_code.push_str(
            "\nconst MAX_PARTS = 32;\n\npub const SplitResult = struct {\n    parts: [MAX_PARTS][]const u8,\n    len: usize,\n};\n\npub fn splitN(input: []const u8, delimiter: u8, count: usize) SplitResult {\n    var parts: [MAX_PARTS][]const u8 = undefined;\n    var i: usize = 0;\n    var iter = std.mem.splitScalar(u8, input, delimiter);\n    while (iter.next()) |part| {\n        if (i >= count or i >= MAX_PARTS) break;\n        parts[i] = part;\n        i += 1;\n    }\n    return SplitResult{ .parts = parts, .len = i };\n}\n",
        );
    }

    if ctx.used_split_auto_fn {
        let ghost pre2 = *ctx;
        let _ = ctx.add_import(std_import);
        proof {
            lemma_evolves_trans(*old(ctx), pre2, *ctx);
        }
        zig_code.push_str(
            "\npub fn splitAuto(allocator: std.mem.Allocator, input: []const u8, delimiter: u8) ![]const []const u8 {\n    var list = std.ArrayList([]const u8).init(allocator);\n    var iter = std.mem.splitScalar(u8, input, delimiter);\n    while (iter.next()) |part| {\n        try list.append(part);\n    }\n    return try list.toOwnedSlice();\n}\n",
        );
    }

    zig_code.push_str("\npub fn main() !void {\n");
    if ctx.needs_allocator {
        zig_code.push_str("    var gpa = std.heap.GeneralPurposeAllocator(.{}){};\n");
        zig_code.push_str("    const allocator = gpa.allocator();\n");
    }
    if ctx.uses_stdout {
        zig_code.push_str("    const stdout = std.io.getStdOut().writer();\n");
    }

    zig_code.push_str(body.as_str());

    let zig_code = emit_cleanups(&ctx.cleanup_statements, 0, zig_code);
    let mut zig_code = zig_code;

    zig_code.push_str("}\n");

    Ok(zig_code)
}

} // verus!
