//! The call-site verifier: from a description of a call to what the expansion checks and runs,
//! or to the violations that keep the call from compiling.
//!
//! Every operand (callee, receiver, arguments) is evaluated exactly once. Arguments and a
//! callee expression are evaluated before the `unsafe` region, and the arguments reach the call
//! only through the tuple tree and their accessor paths. A method's receiver is evaluated in
//! place, inside the region, so that it is never moved or copied.
use vstd::prelude::*;

use crate::oracle::{oracle_path, oracle_path_of, OracleSegment, MAX_ARITY};
use crate::tuple_tree::{accessor_path, build_accessor_paths, Step};

verus! {

/// What the verifier needs to know of one operand expression.
#[derive(Clone, Copy, PartialEq, Eq, Debug, Structural)]
pub struct Operand {
    /// The expression itself holds `unsafe` code (an `unsafe` block, or an operation that needs
    /// one) that is not isolated in a nested verified call of its own.
    pub contains_unsafe: bool,
}

/// Where an operand stands in a call.
#[derive(Clone, Copy, PartialEq, Eq, Debug, Structural)]
pub enum Site {
    /// The expression that gives the function to call.
    Callee,
    /// The receiver of a method call.
    Receiver,
    /// The argument at this 0-based position.
    Argument(usize),
}

/// Why a call does not compile.
#[derive(Clone, Copy, PartialEq, Eq, Debug, Structural)]
pub enum Violation {
    /// The operand at this site holds `unsafe` code of its own that the call's region would
    /// otherwise absorb.
    Laundering(Site),
    /// The method called does not need `unsafe` at all.
    MissingUnsafety,
    /// The callee is a safe function, which would only have been coerced to an `unsafe` one.
    ForgedUnsafe,
    /// Both the allow marker and the expect marker were given for one receiver.
    ConflictingMarkers,
    /// More arguments than the reference family covers.
    TooManyArguments,
}

/// The diagnostic under which the compiler reports a violation.
#[derive(Clone, Copy, PartialEq, Eq, Debug, Structural)]
pub enum Diagnostic {
    /// The "unused/unnecessary `unsafe`" lint, raised to an error.
    UnusedUnsafe,
    /// The stable type-mismatch error of the never-taken comparison branch.
    TypeMismatch,
    /// The fixed error that rejects both receiver markers together.
    ConflictingMarkers,
    /// The error for a call beyond the arity ceiling.
    ArityCeiling,
}

impl Violation {
    pub open spec fn spec_diagnostic(self) -> Diagnostic {
        match self {
            Violation::Laundering(_) => Diagnostic::UnusedUnsafe,
            Violation::MissingUnsafety => Diagnostic::UnusedUnsafe,
            Violation::ForgedUnsafe => Diagnostic::TypeMismatch,
            Violation::ConflictingMarkers => Diagnostic::ConflictingMarkers,
            Violation::TooManyArguments => Diagnostic::ArityCeiling,
        }
    }

    /// The diagnostic that reports this violation.
    pub fn diagnostic(&self) -> (r: Diagnostic)
        ensures
            r == self.spec_diagnostic(),
    {
        match self {
            Violation::Laundering(_) => Diagnostic::UnusedUnsafe,
            Violation::MissingUnsafety => Diagnostic::UnusedUnsafe,
            Violation::ForgedUnsafe => Diagnostic::TypeMismatch,
            Violation::ConflictingMarkers => Diagnostic::ConflictingMarkers,
            Violation::TooManyArguments => Diagnostic::ArityCeiling,
        }
    }
}

/// How a method call treats `unsafe` code in its receiver expression.
#[derive(Clone, Copy, PartialEq, Eq, Debug, Structural)]
pub enum Discipline {
    /// No marker: the receiver is checked like any other operand.
    Unspecified,
    /// The allow marker: `unsafe` code in the receiver is accepted as it stands.
    AllowUnsafe,
    /// The expect marker: `unsafe` code in the receiver is expected, and its absence warns.
    ExpectUnsafe,
}

/// The level of the "unused `unsafe`" lint over the call's own `unsafe` region.
#[derive(Clone, Copy, PartialEq, Eq, Debug, Structural)]
pub enum LintLevel {
    /// The lint is an error.
    Deny,
    /// The lint is silenced.
    Allow,
    /// The lint is expected to fire; a warning comes where it does not.
    Expect,
}

pub open spec fn spec_resolve_discipline(allow_unsafe: bool, expect_unsafe: bool) -> Result<
    Discipline,
    Violation,
> {
    if allow_unsafe && expect_unsafe {
        Err(Violation::ConflictingMarkers)
    } else if allow_unsafe {
        Ok(Discipline::AllowUnsafe)
    } else if expect_unsafe {
        Ok(Discipline::ExpectUnsafe)
    } else {
        Ok(Discipline::Unspecified)
    }
}

/// The receiver discipline that the two markers ask for. The markers exclude each other: both
/// together are an error, never settled by precedence.
pub fn resolve_discipline(allow_unsafe: bool, expect_unsafe: bool) -> (r: Result<
    Discipline,
    Violation,
>)
    ensures
        r == spec_resolve_discipline(allow_unsafe, expect_unsafe),
{
    if allow_unsafe && expect_unsafe {
        Err(Violation::ConflictingMarkers)
    } else if allow_unsafe {
        Ok(Discipline::AllowUnsafe)
    } else if expect_unsafe {
        Ok(Discipline::ExpectUnsafe)
    } else {
        Ok(Discipline::Unspecified)
    }
}

impl Discipline {
    pub open spec fn spec_region_lint(self) -> LintLevel {
        match self {
            Discipline::Unspecified => LintLevel::Deny,
            Discipline::AllowUnsafe => LintLevel::Allow,
            Discipline::ExpectUnsafe => LintLevel::Expect,
        }
    }

    /// The level of the "unused `unsafe`" lint over a method call's `unsafe` region, where the
    /// receiver is evaluated: enforced without a marker, silenced by the allow marker, turned
    /// into an expectation by the expect marker.
    pub fn region_lint(&self) -> (r: LintLevel)
        ensures
            r == self.spec_region_lint(),
    {
        match self {
            Discipline::Unspecified => LintLevel::Deny,
            Discipline::AllowUnsafe => LintLevel::Allow,
            Discipline::ExpectUnsafe => LintLevel::Expect,
        }
    }
}

/// A call of a function: `callee(arg_1, ..., arg_n)`.
pub struct FnCall {
    /// The expression that gives the function.
    pub callee: Operand,
    /// The callee's type is that of an `unsafe` function.
    pub callee_is_unsafe: bool,
    /// The argument expressions, left to right.
    pub args: Vec<Operand>,
}

/// A call of a method: `receiver.method(arg_1, ..., arg_n)`, with the markers given for the
/// receiver.
pub struct MethodCall {
    /// The receiver expression.
    pub receiver: Operand,
    /// The method is declared `unsafe`.
    pub method_is_unsafe: bool,
    /// The allow marker was given.
    pub allow_unsafe: bool,
    /// The expect marker was given.
    pub expect_unsafe: bool,
    /// The argument expressions, left to right.
    pub args: Vec<Operand>,
}

/// What a verified call expands to.
pub struct Expansion {
    /// The reference shape that the callee is compared against in the never-taken branch. `None`
    /// for a method call, which is probed there on an owned stand-in receiver instead.
    pub oracle: Option<Vec<OracleSegment>>,
    /// The operands evaluated before the `unsafe` region, in order.
    pub evaluated_outside: Vec<Site>,
    /// The operands evaluated inside the `unsafe` region.
    pub evaluated_inside: Vec<Site>,
    /// For each argument position, the accessor path that hands the packed value to the call.
    pub accessors: Vec<Vec<Step>>,
    /// The level of the "unused `unsafe`" lint over the region.
    pub region_lint: LintLevel,
    /// An expectation of `unsafe` code in the receiver is left unmet: a warning, not an error.
    pub unfulfilled_expectation: bool,
}

/// An expansion as mathematical values.
pub struct ExpansionView {
    pub oracle: Option<Seq<OracleSegment>>,
    pub evaluated_outside: Seq<Site>,
    pub evaluated_inside: Seq<Site>,
    pub accessors: Seq<Seq<Step>>,
    pub region_lint: LintLevel,
    pub unfulfilled_expectation: bool,
}

impl View for Expansion {
    type V = ExpansionView;

    open spec fn view(&self) -> ExpansionView {
        ExpansionView {
            oracle: match self.oracle {
                Some(p) => Some(p@),
                None => None,
            },
            evaluated_outside: self.evaluated_outside@,
            evaluated_inside: self.evaluated_inside@,
            accessors: self.accessors@.map_values(|p: Vec<Step>| p@),
            region_lint: self.region_lint,
            unfulfilled_expectation: self.unfulfilled_expectation,
        }
    }
}

/// The accessor paths of the first `arity` positions, in order.
pub open spec fn accessor_paths(arity: nat) -> Seq<Seq<Step>> {
    Seq::new(arity, |i: int| accessor_path(i as nat))
}

/// The argument sites of a call with `arity` arguments, left to right.
pub open spec fn argument_sites(arity: nat) -> Seq<Site> {
    Seq::new(arity, |i: int| Site::Argument(i as usize))
}

/// The laundering violations of the arguments, left to right.
pub open spec fn laundered_arguments(args: Seq<Operand>) -> Seq<Violation>
    decreases args.len(),
{
    if args.len() == 0 {
        Seq::empty()
    } else {
        laundered_arguments(args.drop_last()) + if args.last().contains_unsafe {
            seq![Violation::Laundering(Site::Argument((args.len() - 1) as usize))]
        } else {
            Seq::empty()
        }
    }
}

/// Every violation of a function call, in the order they are reported: a call beyond the
/// arity ceiling is refused alone; else the arguments' laundering, the callee expression's,
/// and a safe callee.
pub open spec fn fn_call_violations(
    callee: Operand,
    callee_is_unsafe: bool,
    args: Seq<Operand>,
) -> Seq<Violation> {
    if args.len() > MAX_ARITY {
        seq![Violation::TooManyArguments]
    } else {
        laundered_arguments(args) + (if callee.contains_unsafe {
            seq![Violation::Laundering(Site::Callee)]
        } else {
            Seq::empty()
        }) + (if callee_is_unsafe {
            Seq::empty()
        } else {
            seq![Violation::ForgedUnsafe]
        })
    }
}

/// Every violation of a method call, in the order they are reported: both markers together
/// are refused alone, whatever else the call holds; then a call beyond the arity ceiling; else
/// the receiver's laundering (without a marker), the arguments', and a safe method.
pub open spec fn method_call_violations(
    receiver: Operand,
    method_is_unsafe: bool,
    allow_unsafe: bool,
    expect_unsafe: bool,
    args: Seq<Operand>,
) -> Seq<Violation> {
    if allow_unsafe && expect_unsafe {
        seq![Violation::ConflictingMarkers]
    } else if args.len() > MAX_ARITY {
        seq![Violation::TooManyArguments]
    } else {
        (if receiver.contains_unsafe && !allow_unsafe && !expect_unsafe {
            seq![Violation::Laundering(Site::Receiver)]
        } else {
            Seq::empty()
        }) + laundered_arguments(args) + (if method_is_unsafe {
            Seq::empty()
        } else {
            seq![Violation::MissingUnsafety]
        })
    }
}

/// The expansion of an accepted function call with `arity` arguments: the callee is compared
/// against the reference shape of its arity; the arguments, then the callee expression, are
/// evaluated before the region, which holds the call alone, under the enforced lint.
pub open spec fn fn_call_expansion(arity: nat) -> ExpansionView {
    ExpansionView {
        oracle: Some(oracle_path_of(arity)),
        evaluated_outside: argument_sites(arity).push(Site::Callee),
        evaluated_inside: Seq::empty(),
        accessors: accessor_paths(arity),
        region_lint: LintLevel::Deny,
        unfulfilled_expectation: false,
    }
}

/// The expansion of an accepted method call with `arity` arguments: the method is probed on an
/// owned stand-in receiver; the arguments are evaluated before the region, the receiver in
/// place inside it, under the lint level of the discipline.
pub open spec fn method_call_expansion(
    arity: nat,
    discipline: Discipline,
    receiver: Operand,
) -> ExpansionView {
    ExpansionView {
        oracle: None,
        evaluated_outside: argument_sites(arity),
        evaluated_inside: seq![Site::Receiver],
        accessors: accessor_paths(arity),
        region_lint: discipline.spec_region_lint(),
        unfulfilled_expectation: discipline == Discipline::ExpectUnsafe
            && !receiver.contains_unsafe,
    }
}

/// The argument sites of a call with `arity` arguments, left to right.
fn build_argument_sites(arity: usize) -> (r: Vec<Site>)
    ensures
        r@ == argument_sites(arity as nat),
{
    let mut r: Vec<Site> = Vec::new();
    let mut i: usize = 0;
    while i < arity
        invariant
            i <= arity,
            r@ == argument_sites(i as nat),
        decreases arity - i,
    {
        r.push(Site::Argument(i));
        i = i + 1;
        assert(r@ =~= argument_sites(i as nat));
    }
    r
}

/// The laundering violations of the arguments, left to right.
fn find_laundered_arguments(args: &Vec<Operand>) -> (r: Vec<Violation>)
    ensures
        r@ == laundered_arguments(args@),
{
    let mut r: Vec<Violation> = Vec::new();
    let mut i: usize = 0;
    while i < args.len()
        invariant
            i <= args@.len(),
            r@ == laundered_arguments(args@.subrange(0, i as int)),
        decreases args@.len() - i,
    {
        assert(args@.subrange(0, i + 1).drop_last() =~= args@.subrange(0, i as int));
        if args[i].contains_unsafe {
            r.push(Violation::Laundering(Site::Argument(i)));
        }
        i = i + 1;
        assert(r@ =~= laundered_arguments(args@.subrange(0, i as int)));
    }
    assert(args@.subrange(0, i as int) =~= args@);
    r
}

/// The accessor paths of a call with `arity` arguments, with their view stated as a whole.
fn accessor_paths_for(arity: usize) -> (r: Vec<Vec<Step>>)
    ensures
        r@.map_values(|p: Vec<Step>| p@) == accessor_paths(arity as nat),
{
    let r = build_accessor_paths(arity);
    assert(r@.map_values(|p: Vec<Step>| p@) =~= accessor_paths(arity as nat));
    r
}

/// Verifies a call of an `unsafe` function. On success, gives the expansion that makes the call
/// with the region spanning the call alone; else every violation, in reporting order.
pub fn internal_prudent_unsafe_fn(call: &FnCall) -> (r: Result<Expansion, Vec<Violation>>)
    ensures
        match r {
            Ok(e) => fn_call_violations(call.callee, call.callee_is_unsafe, call.args@).len() == 0
                && e@ == fn_call_expansion(call.args@.len()),
            Err(v) => v@.len() > 0 && v@ == fn_call_violations(
                call.callee,
                call.callee_is_unsafe,
                call.args@,
            ),
        },
{
    let arity = call.args.len();
    let oracle = match oracle_path(arity) {
        Some(p) => p,
        None => {
            return Err(vec![Violation::TooManyArguments]);
        },
    };
    let mut found = find_laundered_arguments(&call.args);
    if call.callee.contains_unsafe {
        found.push(Violation::Laundering(Site::Callee));
    }
    if !call.callee_is_unsafe {
        found.push(Violation::ForgedUnsafe);
    }
    assert(found@ =~= fn_call_violations(call.callee, call.callee_is_unsafe, call.args@));
    if found.len() > 0 {
        return Err(found);
    }
    let mut evaluated_outside = build_argument_sites(arity);
    evaluated_outside.push(Site::Callee);
    let e = Expansion {
        oracle: Some(oracle),
        evaluated_outside,
        evaluated_inside: Vec::new(),
        accessors: accessor_paths_for(arity),
        region_lint: LintLevel::Deny,
        unfulfilled_expectation: false,
    };
    assert(e@.evaluated_inside =~= Seq::<Site>::empty());
    Ok(e)
}

/// Verifies a call of an `unsafe` method. On success, gives the expansion that makes the call
/// with the receiver evaluated in place; else every violation, in reporting order.
pub fn internal_prudent_unsafe_method(call: &MethodCall) -> (r: Result<Expansion, Vec<Violation>>)
    ensures
        match r {
            Ok(e) => method_call_violations(
                call.receiver,
                call.method_is_unsafe,
                call.allow_unsafe,
                call.expect_unsafe,
                call.args@,
            ).len() == 0 && e@ == method_call_expansion(
                call.args@.len(),
                spec_resolve_discipline(call.allow_unsafe, call.expect_unsafe)->Ok_0,
                call.receiver,
            ),
            Err(v) => v@.len() > 0 && v@ == method_call_violations(
                call.receiver,
                call.method_is_unsafe,
                call.allow_unsafe,
                call.expect_unsafe,
                call.args@,
            ),
        },
{
    let discipline = match resolve_discipline(call.allow_unsafe, call.expect_unsafe) {
        Ok(d) => d,
        Err(v) => {
            return Err(vec![v]);
        },
    };
    let arity = call.args.len();
    if arity > MAX_ARITY {
        return Err(vec![Violation::TooManyArguments]);
    }
    let mut found: Vec<Violation> = Vec::new();
    if call.receiver.contains_unsafe && discipline == Discipline::Unspecified {
        found.push(Violation::Laundering(Site::Receiver));
    }
    let mut laundered = find_laundered_arguments(&call.args);
    found.append(&mut laundered);
    if !call.method_is_unsafe {
        found.push(Violation::MissingUnsafety);
    }
    assert(found@ =~= method_call_violations(
        call.receiver,
        call.method_is_unsafe,
        call.allow_unsafe,
        call.expect_unsafe,
        call.args@,
    ));
    if found.len() > 0 {
        return Err(found);
    }
    let e = Expansion {
        oracle: None,
        evaluated_outside: build_argument_sites(arity),
        evaluated_inside: vec![Site::Receiver],
        accessors: accessor_paths_for(arity),
        region_lint: discipline.region_lint(),
        unfulfilled_expectation: discipline == Discipline::ExpectUnsafe
            && !call.receiver.contains_unsafe,
    };
    assert(e@.evaluated_inside =~= seq![Site::Receiver]);
    Ok(e)
}

} // verus!
