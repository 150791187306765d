//! Laws of the call-site verifier, stated over the same spec functions as its contracts.
use vstd::prelude::*;

use crate::call_site::{
    argument_sites, fn_call_expansion, fn_call_violations, laundered_arguments,
    method_call_expansion, method_call_violations, spec_resolve_discipline, Diagnostic, Operand,
    Site, Violation,
};
use crate::oracle::MAX_ARITY;
use crate::tuple_tree::{arity_completeness, packs, project, TupleTree};

verus! {

/// How many times `site` occurs in `sites`.
pub open spec fn occurrences(sites: Seq<Site>, site: Site) -> nat
    decreases sites.len(),
{
    if sites.len() == 0 {
        0
    } else {
        occurrences(sites.drop_last(), site) + if sites.last() == site {
            1nat
        } else {
            0nat
        }
    }
}

/// Whether `site` is an operand of a function call with `arity` arguments.
pub open spec fn is_fn_call_operand(site: Site, arity: nat) -> bool {
    site == Site::Callee || (site matches Site::Argument(i) && i < arity)
}

/// Whether `site` is an operand of a method call with `arity` arguments.
pub open spec fn is_method_call_operand(site: Site, arity: nat) -> bool {
    site == Site::Receiver || (site matches Site::Argument(i) && i < arity)
}

proof fn lemma_occurrences_concat(a: Seq<Site>, b: Seq<Site>, site: Site)
    ensures
        occurrences(a + b, site) == occurrences(a, site) + occurrences(b, site),
    decreases b.len(),
{
    if b.len() == 0 {
        assert(a + b =~= a);
    } else {
        assert((a + b).drop_last() =~= a + b.drop_last());
        lemma_occurrences_concat(a, b.drop_last(), site);
    }
}

proof fn lemma_occurrences_argument_sites(arity: nat, site: Site)
    requires
        arity <= usize::MAX,
    ensures
        occurrences(argument_sites(arity), site) == if site matches Site::Argument(i) && i
            < arity {
            1nat
        } else {
            0nat
        },
    decreases arity,
{
    if arity > 0 {
        assert(argument_sites(arity).drop_last() =~= argument_sites((arity - 1) as nat));
        lemma_occurrences_argument_sites((arity - 1) as nat, site);
    }
}

proof fn lemma_laundered_argument_reported(args: Seq<Operand>, i: int)
    requires
        0 <= i < args.len() <= usize::MAX,
        args[i].contains_unsafe,
    ensures
        laundered_arguments(args).contains(Violation::Laundering(Site::Argument(i as usize))),
    decreases args.len(),
{
    let v = Violation::Laundering(Site::Argument(i as usize));
    let rest = laundered_arguments(args.drop_last());
    if i == args.len() - 1 {
        assert(laundered_arguments(args) == rest + seq![v]);
        assert(laundered_arguments(args)[rest.len() as int] == v);
    } else {
        lemma_laundered_argument_reported(args.drop_last(), i);
        let j = choose|j: int| 0 <= j < rest.len() && rest[j] == v;
        assert(laundered_arguments(args)[j] == v);
    }
}

proof fn lemma_clean_arguments(args: Seq<Operand>)
    requires
        forall|i: int| 0 <= i < args.len() ==> !(#[trigger] args[i]).contains_unsafe,
    ensures
        laundered_arguments(args) == Seq::<Violation>::empty(),
    decreases args.len(),
{
    if args.len() > 0 {
        lemma_clean_arguments(args.drop_last());
        assert(laundered_arguments(args) =~= Seq::<Violation>::empty());
    }
}

/// Single evaluation, function form: in an accepted call, the callee expression and each
/// argument are evaluated exactly once, and nothing else is evaluated.
pub proof fn single_evaluation_fn_call(
    callee: Operand,
    callee_is_unsafe: bool,
    args: Seq<Operand>,
    site: Site,
)
    requires
        fn_call_violations(callee, callee_is_unsafe, args).len() == 0,
    ensures
        occurrences(
            fn_call_expansion(args.len()).evaluated_outside + fn_call_expansion(
                args.len(),
            ).evaluated_inside,
            site,
        ) == if is_fn_call_operand(site, args.len()) {
            1nat
        } else {
            0nat
        },
{
    let e = fn_call_expansion(args.len());
    lemma_occurrences_concat(e.evaluated_outside, e.evaluated_inside, site);
    assert(e.evaluated_outside.drop_last() =~= argument_sites(args.len()));
    lemma_occurrences_argument_sites(args.len(), site);
}

/// Single evaluation, method form: in an accepted call, the receiver and each argument are
/// evaluated exactly once, and nothing else is evaluated.
pub proof fn single_evaluation_method_call(
    receiver: Operand,
    method_is_unsafe: bool,
    allow_unsafe: bool,
    expect_unsafe: bool,
    args: Seq<Operand>,
    site: Site,
)
    requires
        method_call_violations(receiver, method_is_unsafe, allow_unsafe, expect_unsafe, args).len()
            == 0,
    ensures
        ({
            let e = method_call_expansion(
                args.len(),
                spec_resolve_discipline(allow_unsafe, expect_unsafe)->Ok_0,
                receiver,
            );
            occurrences(e.evaluated_outside + e.evaluated_inside, site) == if is_method_call_operand(
                site,
                args.len(),
            ) {
                1nat
            } else {
                0nat
            }
        }),
{
    let e = method_call_expansion(
        args.len(),
        spec_resolve_discipline(allow_unsafe, expect_unsafe)->Ok_0,
        receiver,
    );
    lemma_occurrences_concat(e.evaluated_outside, e.evaluated_inside, site);
    assert(e.evaluated_inside.drop_last() =~= Seq::<Site>::empty());
    assert(occurrences(Seq::<Site>::empty(), site) == 0);
    lemma_occurrences_argument_sites(args.len(), site);
}

/// Laundering is rejected, function form: a call with an argument that holds `unsafe` code of its
/// own does not compile; within the arity ceiling it is reported at that argument, under the
/// "unused `unsafe`" diagnostic.
pub proof fn laundering_rejected_fn_call(
    callee: Operand,
    callee_is_unsafe: bool,
    args: Seq<Operand>,
    i: int,
)
    requires
        0 <= i < args.len() <= usize::MAX,
        args[i].contains_unsafe,
    ensures
        fn_call_violations(callee, callee_is_unsafe, args).len() > 0,
        args.len() <= MAX_ARITY ==> fn_call_violations(callee, callee_is_unsafe, args).contains(
            Violation::Laundering(Site::Argument(i as usize)),
        ),
        Violation::Laundering(Site::Argument(i as usize)).spec_diagnostic()
            == Diagnostic::UnusedUnsafe,
{
    if args.len() <= MAX_ARITY {
        let v = Violation::Laundering(Site::Argument(i as usize));
        let all = fn_call_violations(callee, callee_is_unsafe, args);
        lemma_laundered_argument_reported(args, i);
        let j = choose|j: int| 0 <= j < laundered_arguments(args).len() && laundered_arguments(
            args,
        )[j] == v;
        assert(all[j] == v);
    }
}

/// Laundering is rejected, method form: a call with an argument that holds `unsafe` code of its
/// own does not compile; within the arity ceiling, and with at most one marker, it is reported
/// at that argument, under the "unused `unsafe`" diagnostic.
pub proof fn laundering_rejected_method_call(
    receiver: Operand,
    method_is_unsafe: bool,
    allow_unsafe: bool,
    expect_unsafe: bool,
    args: Seq<Operand>,
    i: int,
)
    requires
        0 <= i < args.len() <= usize::MAX,
        args[i].contains_unsafe,
    ensures
        method_call_violations(receiver, method_is_unsafe, allow_unsafe, expect_unsafe, args).len()
            > 0,
        args.len() <= MAX_ARITY && !(allow_unsafe && expect_unsafe) ==> method_call_violations(
            receiver,
            method_is_unsafe,
            allow_unsafe,
            expect_unsafe,
            args,
        ).contains(Violation::Laundering(Site::Argument(i as usize))),
{
    if args.len() <= MAX_ARITY && !(allow_unsafe && expect_unsafe) {
        let v = Violation::Laundering(Site::Argument(i as usize));
        let all = method_call_violations(
            receiver,
            method_is_unsafe,
            allow_unsafe,
            expect_unsafe,
            args,
        );
        let head: Seq<Violation> = if receiver.contains_unsafe && !allow_unsafe && !expect_unsafe {
            seq![Violation::Laundering(Site::Receiver)]
        } else {
            Seq::empty()
        };
        lemma_laundered_argument_reported(args, i);
        let j = choose|j: int| 0 <= j < laundered_arguments(args).len() && laundered_arguments(
            args,
        )[j] == v;
        assert(all[head.len() + j] == v);
    }
}

/// A forged `unsafe` callee is rejected: a call of a safe function does not compile, with any
/// number of arguments; within the arity ceiling it is reported under the stable type-mismatch
/// diagnostic.
pub proof fn forged_unsafe_rejected(callee: Operand, args: Seq<Operand>)
    ensures
        fn_call_violations(callee, false, args).len() > 0,
        args.len() <= MAX_ARITY ==> fn_call_violations(callee, false, args).last()
            == Violation::ForgedUnsafe,
        Violation::ForgedUnsafe.spec_diagnostic() == Diagnostic::TypeMismatch,
{
}

/// A genuine `unsafe` function is accepted: with no `unsafe` code in the callee expression or
/// the arguments, a call of an `unsafe` function of a supported arity compiles, and its accessor
/// paths hand the call the packed values in their order.
pub proof fn genuine_unsafe_fn_accepted<T>(
    callee: Operand,
    args: Seq<Operand>,
    tree: Option<TupleTree<T>>,
    values: Seq<T>,
)
    requires
        args.len() <= MAX_ARITY,
        !callee.contains_unsafe,
        forall|i: int| 0 <= i < args.len() ==> !(#[trigger] args[i]).contains_unsafe,
        packs(tree, values),
        values.len() == args.len(),
    ensures
        fn_call_violations(callee, true, args).len() == 0,
        forall|i: int|
            0 <= i < args.len() ==> project(
                tree->Some_0,
                #[trigger] fn_call_expansion(args.len()).accessors[i],
            ) == Some(values[i]),
{
    lemma_clean_arguments(args);
    assert(fn_call_violations(callee, true, args) =~= Seq::<Violation>::empty());
    arity_completeness(tree, values);
    assert forall|i: int| 0 <= i < args.len() implies project(
        tree->Some_0,
        #[trigger] fn_call_expansion(args.len()).accessors[i],
    ) == Some(values[i]) by {
        assert(fn_call_expansion(args.len()).accessors[i] == crate::tuple_tree::accessor_path(
            i as nat,
        ));
    }
}

/// A genuine `unsafe` method is accepted: with no `unsafe` code in the arguments, and none in
/// the receiver unless a single marker admits it, a call of an `unsafe` method of a supported
/// arity compiles, and its accessor paths hand the call the packed values in their order.
pub proof fn genuine_unsafe_method_accepted<T>(
    receiver: Operand,
    allow_unsafe: bool,
    expect_unsafe: bool,
    args: Seq<Operand>,
    tree: Option<TupleTree<T>>,
    values: Seq<T>,
)
    requires
        args.len() <= MAX_ARITY,
        !(allow_unsafe && expect_unsafe),
        !receiver.contains_unsafe || allow_unsafe || expect_unsafe,
        forall|i: int| 0 <= i < args.len() ==> !(#[trigger] args[i]).contains_unsafe,
        packs(tree, values),
        values.len() == args.len(),
    ensures
        method_call_violations(receiver, true, allow_unsafe, expect_unsafe, args).len() == 0,
        forall|i: int|
            0 <= i < args.len() ==> project(
                tree->Some_0,
                #[trigger] method_call_expansion(
                    args.len(),
                    spec_resolve_discipline(allow_unsafe, expect_unsafe)->Ok_0,
                    receiver,
                ).accessors[i],
            ) == Some(values[i]),
{
    lemma_clean_arguments(args);
    assert(method_call_violations(receiver, true, allow_unsafe, expect_unsafe, args)
        =~= Seq::<Violation>::empty());
    arity_completeness(tree, values);
    let d = spec_resolve_discipline(allow_unsafe, expect_unsafe)->Ok_0;
    assert forall|i: int| 0 <= i < args.len() implies project(
        tree->Some_0,
        #[trigger] method_call_expansion(args.len(), d, receiver).accessors[i],
    ) == Some(values[i]) by {
        assert(method_call_expansion(args.len(), d, receiver).accessors[i]
            == crate::tuple_tree::accessor_path(i as nat));
    }
}

/// The receiver markers exclude each other: a method call that gives both fails with the fixed
/// conflicting-marker error alone, whatever the receiver, the method and the arguments.
pub proof fn markers_exclusive(
    receiver: Operand,
    method_is_unsafe: bool,
    args: Seq<Operand>,
)
    ensures
        method_call_violations(receiver, method_is_unsafe, true, true, args) == seq![
            Violation::ConflictingMarkers,
        ],
        Violation::ConflictingMarkers.spec_diagnostic() == Diagnostic::ConflictingMarkers,
{
}

} // verus!
