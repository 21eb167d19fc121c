//! The specification of the code generator: a mathematical mirror of the
//! whole emission pass.
//!
//! `spec_gen` maps an expression and a generator state to the emitted
//! text and the state after emission, or to nothing where the generator
//! rejects; every executable emission function is pinned to it with an
//! if-and-only-if contract. The generator is therefore a function of the
//! validated tree and the incoming state, which is what makes its output
//! byte-identical across runs.

use vstd::prelude::*;

use crate::ast::{BuiltInFunction, Expr, Type};
use crate::strutil::{dec_digits, esc_seq, i64_dec, replace_seq};
use crate::transpiler::builtin::{spec_format_str, spec_match_builtin};
use crate::transpiler::context::{TranspileContext, contains_name, insert_name, sym_lookup};
use crate::transpiler::expr::spec_join_from;
use crate::transpiler::utils::{spec_infer, spec_map_type};

verus! {

/// The generator-visible state of a compilation context, at the level of
/// character sequences.
pub struct GState {
    pub imports: Seq<Seq<char>>,
    pub syms: Seq<(Seq<char>, Type)>,
    pub mutables: Seq<Seq<char>>,
    pub cleanups: Seq<Seq<char>>,
    pub needs_allocator: bool,
    pub uses_stdout: bool,
    pub used_input_fn: bool,
    pub used_sum_fn: bool,
    pub used_split_n_fn: bool,
    pub used_split_auto_fn: bool,
}

/// The generator-visible state of a context value.
pub open spec fn gstate(ctx: TranspileContext) -> GState {
    GState {
        imports: ctx.imports_view(),
        syms: ctx.syms(),
        mutables: ctx.mutables(),
        cleanups: ctx.cleanups(),
        needs_allocator: ctx.needs_allocator,
        uses_stdout: ctx.uses_stdout,
        used_input_fn: ctx.used_input_fn,
        used_sum_fn: ctx.used_sum_fn,
        used_split_n_fn: ctx.used_split_n_fn,
        used_split_auto_fn: ctx.used_split_auto_fn,
    }
}

/// The character sequences of a vector of strings.
pub open spec fn views_of(v: Seq<String>) -> Seq<Seq<char>> {
    v.map_values(|s: String| s@)
}

/// The rendering of a method call on a list value, if the method is
/// known with enough arguments.
pub open spec fn spec_list_method(
    target: Seq<char>,
    method: Seq<char>,
    args: Seq<Seq<char>>,
    is_mutable: bool,
) -> Option<Seq<char>> {
    if method == "əlavə_et"@ {
        if args.len() < 1 {
            None
        } else {
            Some("try "@ + target + ".append("@ + args[0] + ");"@)
        }
    } else if method == "sil"@ {
        if args.len() < 1 {
            None
        } else {
            Some("_ = "@ + target + ".swapRemove("@ + args[0] + ");"@)
        }
    } else if method == "sıralı_sil"@ {
        if args.len() < 1 {
            None
        } else {
            Some("_ = "@ + target + ".orderedRemove("@ + args[0] + ");"@)
        }
    } else if method == "sırala"@ {
        Some("std.mem.sort(usize, "@ + target + ".items, { }, std.sort.asc(usize));"@)
    } else if method == "əks_sırala"@ {
        Some("std.mem.sort(usize, "@ + target + ".items, { }, std.sort.desc(usize));"@)
    } else if method == "uzunluq"@ {
        if is_mutable {
            Some(target + ".items.len"@)
        } else {
            Some(target + ".len"@)
        }
    } else if method == "boşdur"@ {
        Some(target + ".is_empty()"@)
    } else {
        None
    }
}

/// The rendering of a method call on a text value, with the flags the
/// rendered form turns on.
pub open spec fn spec_gen_strmethod(
    target: Seq<char>,
    method: Seq<char>,
    args: Seq<Seq<char>>,
    g: GState,
) -> Option<(Seq<char>, GState)> {
    if method == "böyüt"@ {
        Some(
            (
                "\n    for ("@ + target + ") |*ch| {\n        ch.* = std.ascii.toUpper(ch.*);\n    }\n    "@,
                GState { needs_allocator: true, ..g },
            ),
        )
    } else if method == "kiçilt"@ {
        Some(
            (
                "\n    for ("@ + target + ") |*ch| {\n        ch.* = std.ascii.toLower(ch.*);\n    }\n    "@,
                GState { needs_allocator: true, ..g },
            ),
        )
    } else if method == "böl"@ {
        if args.len() != 1 {
            None
        } else {
            let quoted = target.len() >= 2 && target[0] == '"' && target[target.len() - 1] == '"';
            if quoted {
                Some(
                    (
                        "({\n    var result = splitN("@ + target + ", "@ + args[0] + ", "@
                            + dec_digits(target.len() as int)
                            + ");\n    result.parts[0..result.len];\n})"@,
                        GState { used_split_n_fn: true, ..g },
                    ),
                )
            } else {
                Some(
                    (
                        "try splitAuto(allocator, "@ + target + ", "@ + args[0] + ")"@,
                        GState { used_split_auto_fn: true, needs_allocator: true, ..g },
                    ),
                )
            }
        }
    } else if method == "kənar_təmizlə"@ {
        Some((target + ".trim()"@ + ""@, g))
    } else if method == "uzunluq"@ {
        Some((target + ".len()"@ + ""@, g))
    } else if method == "boşdur"@ {
        Some((target + ".is_empty()"@ + ""@, g))
    } else if method == "sırala"@ {
        if args.len() == 0 {
            Some(("std.mem.sort(u8, "@ + target + ".items, "@ + target + ", std.sort.asc(u8));"@, g))
        } else {
            None
        }
    } else if method == "əvəzlə"@ {
        if args.len() == 2 {
            Some(
                (
                    "\n    "@ + target + " = try std.mem.replaceOwned(u8,allocator, "@ + target
                        + ", "@ + args[0] + ", "@ + args[1] + ");\n    "@,
                    GState { needs_allocator: true, ..g },
                ),
            )
        } else {
            None
        }
    } else if method == "kəs"@ {
        if args.len() == 2 {
            Some(
                (
                    "\n    "@ + target + " = try allocator.dupe(u8, "@ + target + "["@ + args[0]
                        + ".."@ + args[1] + "]);\n    "@,
                    GState { needs_allocator: true, ..g },
                ),
            )
        } else {
            None
        }
    } else if method == "birləşdir"@ {
        if args.len() < 1 {
            None
        } else {
            Some(
                (
                    "\n    "@ + target + " = try std.mem.concat(allocator, u8, &[_][]const u8{ "@
                        + target + ", "@ + args[0] + " });\n    "@,
                    GState { needs_allocator: true, ..g },
                ),
            )
        }
    } else {
        None
    }
}

/// The emitted text and state change of one expression. Each arm mirrors
/// one construct of the language: indexing brackets the two parts, a
/// binary operator parenthesizes its operands with the word forms for
/// the logic operators, conditionals and loops nest their generated
/// bodies, declarations choose between the direct list path, the input
/// helper and the plain form, and built-ins go through their helper
/// calls.
pub open spec fn spec_gen(e: Expr, g: GState) -> Option<(Seq<char>, GState)>
    decreases e, 1int, 0int,
{
    match e {
        Expr::Index { target, index } => match spec_gen(*target, g) {
            None => None,
            Some((t, g1)) => match spec_gen(*index, g1) {
                None => None,
                Some((ix, g2)) => Some((t + "["@ + ix + "]"@, g2)),
            },
        },
        Expr::BinaryOp { left, op, right } => match spec_gen(*left, g) {
            None => None,
            Some((l, g1)) => match spec_gen(*right, g1) {
                None => None,
                Some((r, g2)) => {
                    let zig_op = if op@ == "&&"@ {
                        "and"@
                    } else if op@ == "||"@ {
                        "or"@
                    } else {
                        op@
                    };
                    Some(("("@ + l + " "@ + zig_op + " "@ + r + ")"@, g2))
                },
            },
        },
        Expr::If { condition, then_branch, else_branch } => match spec_gen(*condition, g) {
            None => None,
            Some((c, g1)) => match spec_gen_seq(then_branch@, 0, g1) {
                None => None,
                Some((tc, g2)) => {
                    let tj = spec_join_from(tc, 0, ";\n"@);
                    match else_branch {
                        Some(branch) => match spec_gen_seq(branch@, 0, g2) {
                            None => None,
                            Some((ec, g3)) => {
                                let ej = spec_join_from(ec, 0, ";\n"@);
                                Some(
                                    (
                                        "if ("@ + c + ") {\n"@ + tj + "\n}"@ + (" else {\n"@ + ej
                                            + "\n}"@),
                                        g3,
                                    ),
                                )
                            },
                        },
                        None => Some(
                            ("if ("@ + c + ") {\n"@ + tj + "\n}"@ + Seq::<char>::empty(), g2),
                        ),
                    }
                },
            },
        },
        Expr::Loop { var_name, iterable, body } => {
            let is_mutable = match *iterable {
                Expr::VariableRef(n) => contains_name(g.mutables, n@),
                _ => false,
            };
            match spec_gen(*iterable, g) {
                None => None,
                Some((ic, g1)) => match spec_gen_seq(body@, 0, g1) {
                    None => None,
                    Some((bc, g2)) => {
                        let joined = spec_join_from(bc, 0, "\n"@);
                        Some(
                            (
                                "for ("@ + ic + (if is_mutable {
                                    ".items ) |"@
                                } else {
                                    " ) |"@
                                }) + var_name@ + "| {\n"@ + joined + "\n}"@,
                                g2,
                            ),
                        )
                    },
                },
            }
        },
        Expr::BuiltInCall { func, args } => spec_gen_builtin(func, args@, g),
        Expr::MutableDecl { name, typ, value } => spec_gen_decl(name@, typ, *value, g, true),
        Expr::ConstantDecl { name, typ, value } => spec_gen_decl(name@, typ, *value, g, false),
        Expr::Bool(b) => Some(
            (
                if b {
                    "true"@
                } else {
                    "false"@
                },
                g,
            ),
        ),
        Expr::Number(n) => Some((i64_dec(n as int), g)),
        Expr::MethodCall { target, method, args } => match spec_gen(*target, g) {
            None => None,
            Some((t, g1)) => match spec_gen_seq(args@, 0, g1) {
                None => None,
                Some((ac, g2)) => match spec_infer(*target, g2.syms) {
                    Some(Type::Metn) => match spec_gen_strmethod(t, method@, ac, g2) {
                        None => None,
                        Some(sg) => Some(sg),
                    },
                    Some(Type::Siyahi(inner)) => {
                        let is_mutable = contains_name(g2.mutables, t);
                        match spec_list_method(t, method@, ac, is_mutable) {
                            None => None,
                            Some(s) => Some((s, g2)),
                        }
                    },
                    _ => None,
                },
            },
        },
        Expr::Return(inner) => match spec_gen(*inner, g) {
            None => None,
            Some((c, g1)) => Some(("return "@ + c, g1)),
        },
        Expr::FunctionCall { name, args } => spec_gen_fncall(name@, args@, g),
        Expr::List(items) => match spec_gen_seq(items@, 0, g) {
            None => None,
            Some((ic, g1)) => Some(("["@ + spec_join_from(ic, 0, ", "@) + "]"@, g1)),
        },
        Expr::String(v) => Some((seq!['"'] + esc_seq(v@) + seq!['"'], g)),
        Expr::VariableRef(name) => Some((name@, g)),
        Expr::FunctionDef { name, params, body } => spec_gen_fndef(name@, params@, body@, g),
    }
}

/// The emitted texts of a sequence of expressions, in order, threading
/// the state.
pub open spec fn spec_gen_seq(es: Seq<Expr>, i: int, g: GState) -> Option<(Seq<Seq<char>>, GState)>
    decreases es, 0int, es.len() - i,
{
    if i < 0 || i >= es.len() {
        Some((Seq::empty(), g))
    } else {
        match spec_gen(es[i], g) {
            None => None,
            Some((c, g1)) => match spec_gen_seq(es, i + 1, g1) {
                None => None,
                Some((rest, g2)) => Some((rest.insert(0, c), g2)),
            },
        }
    }
}

/// The emitted text of one built-in call.
pub open spec fn spec_gen_builtin(func: BuiltInFunction, args: Seq<Expr>, g: GState) -> Option<
    (Seq<char>, GState),
>
    decreases args, 2int, 1int,
{
    match func {
        BuiltInFunction::Print => if args.len() == 0 {
            None
        } else {
            spec_gen_print(args[0], g)
        },
        BuiltInFunction::Sum => spec_gen_sum(args, g),
        BuiltInFunction::Number => if args.len() == 0 {
            None
        } else {
            match args[0] {
                Expr::String(s) => Some((s@, g)),
                Expr::FunctionCall { name, args: inner } => match spec_gen(args[0], g) {
                    None => None,
                    Some((c, g1)) => Some((c + ".parse::<i32>().unwrap()"@, g1)),
                },
                Expr::VariableRef(_) => match spec_gen(args[0], g) {
                    None => None,
                    Some((c, g1)) => Some((c + ".parse::<i32>().unwrap()"@, g1)),
                },
                _ => Some(("0"@, g)),
            }
        },
        BuiltInFunction::Input => Some((Seq::empty(), g)),
        BuiltInFunction::Len => if args.len() == 0 {
            None
        } else {
            match spec_gen(args[0], g) {
                None => None,
                Some((c, g1)) => Some((c + ".len()"@, g1)),
            }
        },
    }
}

/// The emitted print of a scalar value: rejected for an untypable or
/// list-typed argument; an indexed mutable list is printed through its
/// backing storage.
pub open spec fn spec_gen_print(e: Expr, g: GState) -> Option<(Seq<char>, GState)>
    decreases e, 2int, 0int,
{
    match spec_infer(e, g.syms) {
        None => None,
        Some(tip) => match tip {
            Type::Siyahi(_) => None,
            _ => {
                let fmt = spec_format_str(tip);
                match spec_gen(e, g) {
                    None => None,
                    Some((arg, g1)) => {
                        let arg2 = match e {
                            Expr::Index { target, index } => match *target {
                                Expr::VariableRef(name) => {
                                    let is_list = match sym_lookup(g1.syms, name@) {
                                        Some(t) => t is Siyahi,
                                        None => false,
                                    };
                                    if is_list && contains_name(g1.mutables, name@) {
                                        replace_seq(arg, name@, name@ + ".items"@)
                                    } else {
                                        arg
                                    }
                                },
                                _ => arg,
                            },
                            _ => arg,
                        };
                        Some(("std.debug.print(\""@ + fmt + "\\n\", .{"@ + arg2 + "});"@, g1))
                    },
                }
            },
        },
    }
}

/// The emitted sum over a list of numbers: the helper call, with a
/// literal list spliced into a fixed array argument.
pub open spec fn spec_gen_sum(args: Seq<Expr>, g: GState) -> Option<(Seq<char>, GState)>
    decreases args, 2int, 0int,
{
    if args.len() == 0 {
        None
    } else {
        match spec_gen(args[0], g) {
            None => None,
            Some((lc, g1)) => match spec_infer(args[0], g1.syms) {
                None => None,
                Some(lt) => match lt {
                    Type::Siyahi(inner) => {
                        let tc = match *inner {
                            Type::Integer => Some("usize"@),
                            Type::LowInteger => Some("u8"@),
                            Type::BigInteger => Some("i128"@),
                            _ => None,
                        };
                        match tc {
                            None => None,
                            Some(tcode) => {
                                let g2 = GState { used_sum_fn: true, ..g1 };
                                let n = lc.len() as int;
                                let bracketed = n >= 2 && lc[0] == '[' && lc[n - 1] == ']';
                                if bracketed {
                                    Some(
                                        (
                                            "sum("@ + tcode + ", &[_]"@ + tcode + "{ "@
                                                + lc.subrange(1, n - 1) + " })"@,
                                            g2,
                                        ),
                                    )
                                } else {
                                    Some(("sum("@ + tcode + ", "@ + lc + ")"@, g2))
                                }
                            },
                        }
                    },
                    _ => None,
                },
            },
        }
    }
}

/// The emitted declaration that reads from the input helper: a fixed
/// buffer and the helper call; only a text variable can be read.
pub open spec fn spec_gen_input(
    name: Seq<char>,
    typ: Type,
    args: Seq<Expr>,
    g: GState,
    is_mutable: bool,
) -> Option<(Seq<char>, GState)>
    decreases args, 2int, 0int,
{
    if args.len() != 1 {
        None
    } else {
        let g1 = GState { syms: g.syms.push((name, Type::Metn)), ..g };
        match typ {
            Type::Metn => match spec_gen(args[0], g1) {
                None => None,
                Some((prompt, g2)) => {
                    let g3 = GState { used_input_fn: true, ..g2 };
                    Some(
                        (
                            "var buf_"@ + name + ": [100]u8 = undefined;\n"@ + (if is_mutable {
                                "var "@
                            } else {
                                "const "@
                            }) + name + ": []u8 = try input("@ + prompt + ", &buf_"@ + name
                                + ");"@,
                            g3,
                        ),
                    )
                },
            },
            _ => None,
        }
    }
}

/// The emitted declaration: the input path for an input-call
/// initializer; the direct fixed-array path for a list type with a
/// literal list initializer (growable and cleanup-registered when
/// mutable, read-only when constant); the plain typed form otherwise.
pub open spec fn spec_gen_decl(
    name: Seq<char>,
    typ: Option<Type>,
    value: Expr,
    g: GState,
    is_mutable: bool,
) -> Option<(Seq<char>, GState)>
    decreases value, 2int, 0int,
{
    let t_opt = match typ {
        Some(t) => Some(t),
        None => spec_infer(value, g.syms),
    };
    match t_opt {
        None => None,
        Some(t) => {
            let is_input = value matches Expr::BuiltInCall { func: BuiltInFunction::Input, args };
            if is_input {
                match value {
                    Expr::BuiltInCall { func, args } => spec_gen_input(
                        name,
                        t,
                        args@,
                        g,
                        is_mutable,
                    ),
                    _ => None,
                }
            } else {
                let g1 = if is_mutable {
                    GState { mutables: insert_name(g.mutables, name), ..g }
                } else {
                    g
                };
                let g2 = GState { syms: g1.syms.push((name, t)), ..g1 };
                match t {
                    Type::Siyahi(inner) => match value {
                        Expr::List(items) => match spec_gen_seq(items@, 0, g2) {
                            None => None,
                            Some((codes, g3)) => {
                                let joined = spec_join_from(codes, 0, ", "@);
                                let ety = spec_map_type(*inner, false);
                                if is_mutable {
                                    let g4 = GState { needs_allocator: true, ..g3 };
                                    let g5 = GState {
                                        cleanups: g4.cleanups.push(name + ".deinit();"@),
                                        ..g4
                                    };
                                    Some(
                                        (
                                            "var "@ + name + " = std.ArrayList("@ + ety
                                                + ").init(allocator);\ntry "@ + name
                                                + ".appendSlice(&[_]"@ + ety + "{ "@ + joined
                                                + " });"@,
                                            g5,
                                        ),
                                    )
                                } else {
                                    Some(
                                        (
                                            "const "@ + name + " = &[_]"@ + ety + "{ "@ + joined
                                                + " };"@,
                                            g3,
                                        ),
                                    )
                                }
                            },
                        },
                        _ => match spec_gen(value, g2) {
                            None => None,
                            Some((c, g3)) => Some(
                                (
                                    (if is_mutable {
                                        "var "@
                                    } else {
                                        "const "@
                                    }) + name + " = "@ + c + ";"@,
                                    g3,
                                ),
                            ),
                        },
                    },
                    _ => match spec_gen(value, g2) {
                        None => None,
                        Some((c, g3)) => {
                            let ty = spec_map_type(t, !is_mutable);
                            Some(
                                (
                                    (if is_mutable {
                                        "var "@
                                    } else {
                                        "const "@
                                    }) + name + ": "@ + ty + " = "@ + c + ";"@,
                                    g3,
                                ),
                            )
                        },
                    },
                }
            }
        },
    }
}

/// The symbol table after recording text types for call arguments that
/// are variables not yet in it.
pub open spec fn spec_record_args(args: Seq<Expr>, i: int, g: GState) -> GState
    decreases args, 0int, args.len() - i,
{
    if i < 0 || i >= args.len() {
        g
    } else {
        let g1 = match args[i] {
            Expr::VariableRef(v) => if sym_lookup(g.syms, v@) is None {
                GState { syms: g.syms.push((v@, Type::Metn)), ..g }
            } else {
                g
            },
            _ => g,
        };
        spec_record_args(args, i + 1, g1)
    }
}

/// The emitted call: a built-in name goes through its handler; any other
/// name becomes a plain call after its variable arguments are recorded.
pub open spec fn spec_gen_fncall(name: Seq<char>, args: Seq<Expr>, g: GState) -> Option<
    (Seq<char>, GState),
>
    decreases args, 3int, 0int,
{
    match spec_match_builtin(name) {
        Some(func) => spec_gen_builtin(func, args, g),
        None => {
            let g1 = spec_record_args(args, 0, g);
            match spec_gen_seq(args, 0, g1) {
                None => None,
                Some((codes, g2)) => Some(
                    (name + "("@ + spec_join_from(codes, 0, ", "@) + ")"@, g2),
                ),
            }
        },
    }
}

/// The rendered parameter list of a function definition, from index `i`.
pub open spec fn spec_params_from(params: Seq<(String, Type, bool)>, i: int) -> Seq<Seq<char>>
    decreases params.len() - i,
{
    if i < 0 || i >= params.len() {
        Seq::empty()
    } else {
        spec_params_from(params, i + 1).insert(
            0,
            params[i].0@ + ": "@ + spec_map_type(params[i].1, !params[i].2),
        )
    }
}

/// The rendered parameter list of a function definition.
pub open spec fn spec_params(params: Seq<(String, Type, bool)>) -> Seq<Seq<char>> {
    spec_params_from(params, 0)
}

/// The generated body lines of a function definition, each indented,
/// from index `i`.
pub open spec fn spec_indent_from(lines: Seq<Seq<char>>, i: int) -> Seq<Seq<char>>
    decreases lines.len() - i,
{
    if i < 0 || i >= lines.len() {
        Seq::empty()
    } else {
        spec_indent_from(lines, i + 1).insert(0, "    "@ + lines[i])
    }
}

/// The generated body lines of a function definition, each indented.
pub open spec fn spec_indent(lines: Seq<Seq<char>>) -> Seq<Seq<char>> {
    spec_indent_from(lines, 0)
}

/// The emitted function definition: the mapped parameter list and the
/// indented body.
pub open spec fn spec_gen_fndef(
    name: Seq<char>,
    params: Seq<(String, Type, bool)>,
    body: Seq<Expr>,
    g: GState,
) -> Option<(Seq<char>, GState)>
    decreases body, 1int, 0int,
{
    match spec_gen_seq(body, 0, g) {
        None => None,
        Some((lines, g1)) => Some(
            (
                "fn "@ + name + "("@ + spec_join_from(spec_params(params), 0, ", "@) + ") {\n"@
                    + spec_join_from(spec_indent(lines), 0, "\n"@) + "\n}"@,
                g1,
            ),
        ),
    }
}

/// The accumulated body of the entry point: each top-level expression's
/// text, indented and newline-terminated, in program order.
pub open spec fn spec_gen_body(prog: Seq<Expr>, i: int, acc: Seq<char>, g: GState) -> Option<
    (Seq<char>, GState),
>
    decreases prog, 0int, prog.len() - i,
{
    if i < 0 || i >= prog.len() {
        Some((acc, g))
    } else {
        match spec_gen(prog[i], g) {
            None => None,
            Some((line, g1)) => spec_gen_body(prog, i + 1, acc + "    "@ + line + "\n"@, g1),
        }
    }
}

/// The accumulated import lines, skipping the fixed standard import.
pub open spec fn spec_imports_acc(imps: Seq<Seq<char>>, k: int, acc: Seq<char>) -> Seq<char>
    decreases imps.len() - k,
{
    if k < 0 || k >= imps.len() {
        acc
    } else if imps[k] == "const std = @import(\"std\");"@ {
        spec_imports_acc(imps, k + 1, acc)
    } else {
        spec_imports_acc(imps, k + 1, acc + imps[k] + "\n"@)
    }
}

/// The accumulated cleanup statements, each indented and
/// newline-terminated.
pub open spec fn spec_cleanups_acc(cl: Seq<Seq<char>>, j: int, acc: Seq<char>) -> Seq<char>
    decreases cl.len() - j,
{
    if j < 0 || j >= cl.len() {
        acc
    } else {
        spec_cleanups_acc(cl, j + 1, acc + "    "@ + cl[j] + "\n"@)
    }
}

/// The whole generated program: the fixed standard import unless the
/// import list holds it, the accumulated imports, each helper block
/// exactly when its flag is set, the entry point with the allocator and
/// standard-output preamble lines when their flags are set, the body in
/// program order, and the cleanup statements.
pub open spec fn spec_gen_main(prog: Seq<Expr>, g: GState) -> Option<(Seq<char>, GState)> {
    match spec_gen_body(prog, 0, Seq::empty(), g) {
        None => None,
        Some((body, g1)) => {
            let std_import = "const std = @import(\"std\");"@;
            let has_std = contains_name(g1.imports, std_import);
            let a1 = if !has_std {
                Seq::<char>::empty() + std_import + "\n"@
            } else {
                Seq::<char>::empty()
            };
            let a2 = spec_imports_acc(g1.imports, 0, a1);
            let a3 = if g1.used_input_fn {
                a2
                    + "\n \npub fn input(prompt: []const u8, buf: []u8) ![]u8 {\n    const stdin = std.io.getStdIn().reader();\n    std.debug.print(\"{s} \", .{prompt});\n    if (try stdin.readUntilDelimiterOrEof(buf, '\\n')) |line| {\n        return line;\n    } else {\n        return error.EmptyInput;\n    }\n}\n    "@
            } else {
                a2
            };
            let a4 = if g1.used_sum_fn {
                a3
                    + "\n    pub fn sum(comptime T: type, list: []const T) T {\n        var total: T = 0;\n        for (list) |item| {\n            total += item;\n        }\n        return total;\n    }\n    "@
            } else {
                a3
            };
            let a5 = if g1.used_split_n_fn {
                a4
                    + "\nconst MAX_PARTS = 32;\n\npub const SplitResult = struct {\n    parts: [MAX_PARTS][]const u8,\n    len: usize,\n};\n\npub fn splitN(input: []const u8, delimiter: u8, count: usize) SplitResult {\n    var parts: [MAX_PARTS][]const u8 = undefined;\n    var i: usize = 0;\n    var iter = std.mem.splitScalar(u8, input, delimiter);\n    while (iter.next()) |part| {\n        if (i >= count or i >= MAX_PARTS) break;\n        parts[i] = part;\n        i += 1;\n    }\n    return SplitResult{ .parts = parts, .len = i };\n}\n"@
            } else {
                a4
            };
            let g2 = if g1.used_split_auto_fn {
                GState { imports: insert_name(g1.imports, std_import), ..g1 }
            } else {
                g1
            };
            let a6 = if g1.used_split_auto_fn {
                a5
                    + "\npub fn splitAuto(allocator: std.mem.Allocator, input: []const u8, delimiter: u8) ![]const []const u8 {\n    var list = std.ArrayList([]const u8).init(allocator);\n    var iter = std.mem.splitScalar(u8, input, delimiter);\n    while (iter.next()) |part| {\n        try list.append(part);\n    }\n    return try list.toOwnedSlice();\n}\n"@
            } else {
                a5
            };
            let a7 = a6 + "\npub fn main() !void {\n"@;
            let a8 = if g2.needs_allocator {
                a7 + "    var gpa = std.heap.GeneralPurposeAllocator(.{}){};\n"@
                    + "    const allocator = gpa.allocator();\n"@
            } else {
                a7
            };
            let a9 = if g2.uses_stdout {
                a8 + "    const stdout = std.io.getStdOut().writer();\n"@
            } else {
                a8
            };
            let a10 = a9 + body;
            let a11 = spec_cleanups_acc(g2.cleanups, 0, a10);
            Some((a11 + "}\n"@, g2))
        },
    }
}

} // verus!
