//! Non-fatal findings: collected separately from errors and never
//! blocking code generation. The driver owns their presentation.

use vstd::prelude::*;

use crate::ast::Type;
use crate::strutil::concat3;

verus! {

/// One non-fatal finding about the program.
#[derive(Debug, PartialEq)]
pub enum Warning {
    /// A function parameter that its body never mentions.
    UnusedParam(String),
    /// A function that is never called.
    UnusedFunction(String),
    /// A construct kept only for compatibility.
    DeprecatedSyntax(String),
    /// A name that hides an earlier one.
    ShadowedVariable(String),
    /// A declared name that is never read.
    UnusedVariable(String),
    /// A loop with no visible exit.
    PossibleInfiniteLoop,
    /// A function whose body is empty.
    EmptyFunctionBody(String),
    /// A name declared mutable whose value never changes.
    MutableButNeverChanged(String),
}

impl Warning {
    /// The name the finding is about, when it is about one.
    pub open spec fn spec_name(self) -> Option<Seq<char>> {
        match self {
            Warning::UnusedParam(n) => Some(n@),
            Warning::UnusedFunction(n) => Some(n@),
            Warning::DeprecatedSyntax(n) => Some(n@),
            Warning::ShadowedVariable(n) => Some(n@),
            Warning::UnusedVariable(n) => Some(n@),
            Warning::PossibleInfiniteLoop => None,
            Warning::EmptyFunctionBody(n) => Some(n@),
            Warning::MutableButNeverChanged(n) => Some(n@),
        }
    }

    /// Renders the finding as plain text; coloring and any other
    /// presentation belong to the driver.
    pub fn render(&self) -> (r: String)
        ensures
            self matches Warning::UnusedParam(n) ==> r@ == "Parametr '"@ + n@
                + "' funksiyada istifadə olunmur"@,
            self matches Warning::MutableButNeverChanged(n) ==> r@ == "Dəyişən '"@ + n@
                + "' heç vaxt dəyişməyib"@,
    {
        match self {
            Warning::UnusedParam(n) => concat3(
                "Parametr '",
                n.as_str(),
                "' funksiyada istifadə olunmur",
            ),
            Warning::UnusedFunction(n) => concat3(
                "Funksiya '",
                n.as_str(),
                "' heç yerdə istifadə olunmur",
            ),
            Warning::DeprecatedSyntax(n) => concat3(
                "'",
                n.as_str(),
                "' sintaksisi köhnədir və tövsiyə edilmir",
            ),
            Warning::ShadowedVariable(n) => concat3(
                "Dəyişən '",
                n.as_str(),
                "' əvvəlcədən mövcuddur və üst-üstə yazılıb",
            ),
            Warning::UnusedVariable(n) => concat3(
                "Dəyişən '",
                n.as_str(),
                "' elan olunub, amma istifadə olunmayıb",
            ),
            Warning::PossibleInfiniteLoop => "Sonsuz dövrə riski var".to_owned(),
            Warning::EmptyFunctionBody(n) => concat3(
                "Funksiyanın gövdəsi boşdur: '",
                n.as_str(),
                "'",
            ),
            Warning::MutableButNeverChanged(n) => concat3(
                "Dəyişən '",
                n.as_str(),
                "' heç vaxt dəyişməyib",
            ),
        }
    }
}

/// Whether a name occurs in a name list.
pub open spec fn name_listed(v: Seq<String>, name: Seq<char>) -> bool {
    exists|i: int| 0 <= i < v.len() && v[i]@ == name
}

fn listed(v: &Vec<String>, name: &str) -> (r: bool)
    ensures
        r == name_listed(v@, name@),
{
    let n = v.len();
    let mut i: usize = 0;
    while i < n
        invariant
            n == v@.len(),
            i <= n,
            forall|j: int| 0 <= j < i ==> v@[j]@ != name@,
        decreases n - i,
    {
        if crate::strutil::str_eq(v[i].as_str(), name) {
            return true;
        }
        i += 1;
    }
    false
}

/// Collects an unused-parameter finding for every parameter whose name is
/// not in the used set: one finding per unused parameter, in parameter
/// order, and none for a used one.
pub fn warn_unused_params(params: &Vec<(String, Type, bool)>, used: &Vec<String>) -> (r: Vec<
    Warning,
>)
    ensures
        forall|i: int|
            0 <= i < r@.len() ==> (#[trigger] r@[i] matches Warning::UnusedParam(n)
                && !name_listed(used@, n@)),
        forall|i: int|
            0 <= i < params@.len() && !name_listed(used@, #[trigger] params@[i].0@) ==> exists|
                k: int,
            |
                #![trigger r@[k]]
                0 <= k < r@.len() && (r@[k] matches Warning::UnusedParam(n) && n@ == params@[i].0@),
{
    let mut out: Vec<Warning> = Vec::new();
    let n = params.len();
    let mut i: usize = 0;
    while i < n
        invariant
            n == params@.len(),
            i <= n,
            forall|k: int|
                0 <= k < out@.len() ==> (#[trigger] out@[k] matches Warning::UnusedParam(m)
                    && !name_listed(used@, m@)),
            forall|j: int|
                0 <= j < i && !name_listed(used@, #[trigger] params@[j].0@) ==> exists|k: int|
                    #![trigger out@[k]]
                    0 <= k < out@.len() && (out@[k] matches Warning::UnusedParam(m) && m@
                        == params@[j].0@),
        decreases n - i,
    {
        let name = &params[i].0;
        if !listed(used, name.as_str()) {
            let ghost pre = out@;
            out.push(Warning::UnusedParam(name.clone()));
            proof {
                assert(out@[pre.len() as int] matches Warning::UnusedParam(m) && m@
                    == params@[i as int].0@);
                assert forall|j: int|
                    0 <= j < i + 1 && !name_listed(used@, #[trigger] params@[j].0@) implies exists|
                    k: int,
                |
                    #![trigger out@[k]]
                    0 <= k < out@.len() && (out@[k] matches Warning::UnusedParam(m) && m@
                        == params@[j].0@) by {
                    if j < i {
                        let k = choose|k: int|
                            #![trigger pre[k]]
                            0 <= k < pre.len() && (pre[k] matches Warning::UnusedParam(m) && m@
                                == params@[j].0@);
                        assert(out@[k] == pre[k]);
                    } else {
                        assert(out@[pre.len() as int] matches Warning::UnusedParam(m) && m@
                            == params@[j].0@);
                    }
                }
            }
        }
        i += 1;
    }
    out
}

/// Collects a never-changed finding for every name in the mutable set
/// that the assigned set does not hold.
pub fn warn_unused_mutables(mutables: &Vec<String>, assigned: &Vec<String>) -> (r: Vec<Warning>)
    ensures
        forall|i: int|
            0 <= i < r@.len() ==> (#[trigger] r@[i] matches Warning::MutableButNeverChanged(n)
                && name_listed(mutables@, n@) && !name_listed(assigned@, n@)),
{
    let mut out: Vec<Warning> = Vec::new();
    let n = mutables.len();
    let mut i: usize = 0;
    while i < n
        invariant
            n == mutables@.len(),
            i <= n,
            forall|k: int|
                0 <= k < out@.len() ==> (#[trigger] out@[k] matches
                Warning::MutableButNeverChanged(m) && name_listed(mutables@, m@) && !name_listed(
                    assigned@,
                    m@,
                )),
        decreases n - i,
    {
        let name = &mutables[i];
        if !listed(assigned, name.as_str()) {
            out.push(Warning::MutableButNeverChanged(name.clone()));
            proof {
                assert(mutables@[i as int]@ == name@);
            }
        }
        i += 1;
    }
    out
}

} // verus!
