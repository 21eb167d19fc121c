//! The code generator: walks a validated abstract syntax tree and emits
//! target-language source text, threading the compilation context.

pub mod array_methods;
pub mod builtin;
pub mod context;
pub mod declaration;
pub mod expr;
pub mod function;
pub mod genspec;
pub mod loops;
pub mod main_fn;
pub mod string_methods;
pub mod utils;

use vstd::prelude::*;

use crate::ast::Program;
use self::context::TranspileContext;
use self::main_fn::generate_main_fn;

verus! {

/// Translates a validated program into a single, self-contained string of
/// target-language source text.
///
/// The output is pinned exactly: it is the finalization `spec_gen_main`
/// states, a function of the program and the incoming context, so equal
/// inputs give byte-identical output.
pub fn transpile(program: &Program, ctx: &mut TranspileContext) -> (r: Result<String, String>)
    ensures
        old(ctx).evolves_to(*final(ctx)),
        r matches Ok(s) ==> self::genspec::spec_gen_main(
            program.expressions@,
            self::genspec::gstate(*old(ctx)),
        ) == Some((s@, self::genspec::gstate(*final(ctx)))),
        r is Err ==> self::genspec::spec_gen_main(
            program.expressions@,
            self::genspec::gstate(*old(ctx)),
        ) is None,
{
    generate_main_fn(program, ctx)
}

} // verus!
