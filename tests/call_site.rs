use prudent::call_site::{
    internal_prudent_unsafe_fn, internal_prudent_unsafe_method, resolve_discipline, Diagnostic,
    Discipline, Expansion, FnCall, LintLevel, MethodCall, Operand, Site, Violation,
};
use prudent::oracle::OracleSegment;
use prudent::tuple_tree::{apply_accessor, build_tuple_tree, Step};

fn clean() -> Operand {
    Operand { contains_unsafe: false }
}

fn tainted() -> Operand {
    Operand { contains_unsafe: true }
}

fn fn_call(callee_is_unsafe: bool, args: Vec<Operand>) -> FnCall {
    FnCall { callee: clean(), callee_is_unsafe, args }
}

fn method_call(allow: bool, expect: bool, receiver: Operand, args: Vec<Operand>) -> MethodCall {
    MethodCall {
        receiver,
        method_is_unsafe: true,
        allow_unsafe: allow,
        expect_unsafe: expect,
        args,
    }
}

fn occurrences(e: &Expansion, site: Site) -> usize {
    e.evaluated_outside.iter().chain(e.evaluated_inside.iter()).filter(|s| **s == site).count()
}

fn accepted(r: Result<Expansion, Vec<Violation>>) -> Expansion {
    match r {
        Ok(e) => e,
        Err(v) => panic!("refused: {:?}", v),
    }
}

fn refused(r: Result<Expansion, Vec<Violation>>) -> Vec<Violation> {
    match r {
        Ok(_) => panic!("accepted"),
        Err(v) => v,
    }
}

#[test]
fn genuine_unsafe_fn_accepted_at_arities_zero_one_two_twelve() {
    for n in [0usize, 1, 2, 12] {
        let e = accepted(internal_prudent_unsafe_fn(&fn_call(true, vec![clean(); n])));
        assert_eq!(e.accessors.len(), n);
        assert_eq!(e.region_lint, LintLevel::Deny);
        assert!(!e.unfulfilled_expectation);
        assert!(e.evaluated_inside.is_empty());
        let oracle = e.oracle.expect("a function is compared against the reference shape");
        assert_eq!(oracle.len(), n + 2);
    }
}

#[test]
fn genuine_unsafe_fn_gets_arguments_in_order() {
    let e = accepted(internal_prudent_unsafe_fn(&fn_call(true, vec![clean(); 3])));
    let tree = build_tuple_tree(vec![1u64, 2, 3]).unwrap();
    let got: Vec<u64> = e.accessors.iter().map(|p| *apply_accessor(&tree, p).unwrap()).collect();
    assert_eq!(got, vec![1, 2, 3]);
}

#[test]
fn function_expansion_of_two_arguments() {
    let e = accepted(internal_prudent_unsafe_fn(&fn_call(true, vec![clean(), clean()])));
    assert_eq!(
        e.evaluated_outside,
        vec![Site::Argument(0), Site::Argument(1), Site::Callee]
    );
    assert_eq!(
        e.accessors,
        vec![vec![Step::First], vec![Step::Second, Step::First]]
    );
    assert_eq!(
        e.oracle,
        Some(vec![
            OracleSegment::Root,
            OracleSegment::Arg,
            OracleSegment::Arg,
            OracleSegment::Fun,
        ])
    );
}

#[test]
fn single_evaluation_of_function_operands() {
    for n in [0usize, 1, 3, 12] {
        let e = accepted(internal_prudent_unsafe_fn(&fn_call(true, vec![clean(); n])));
        assert_eq!(occurrences(&e, Site::Callee), 1);
        assert_eq!(occurrences(&e, Site::Receiver), 0);
        for i in 0..n {
            assert_eq!(occurrences(&e, Site::Argument(i)), 1);
        }
        assert_eq!(occurrences(&e, Site::Argument(n)), 0);
    }
}

#[test]
fn single_evaluation_of_method_operands() {
    for n in [0usize, 2, 12] {
        let e = accepted(internal_prudent_unsafe_method(&method_call(
            false,
            false,
            clean(),
            vec![clean(); n],
        )));
        assert_eq!(occurrences(&e, Site::Receiver), 1);
        assert_eq!(occurrences(&e, Site::Callee), 0);
        for i in 0..n {
            assert_eq!(occurrences(&e, Site::Argument(i)), 1);
        }
        assert_eq!(e.evaluated_inside, vec![Site::Receiver]);
    }
}

#[test]
fn laundering_in_an_argument_is_rejected() {
    let v = refused(internal_prudent_unsafe_fn(&fn_call(
        true,
        vec![clean(), tainted(), clean()],
    )));
    assert_eq!(v, vec![Violation::Laundering(Site::Argument(1))]);
    assert_eq!(v[0].diagnostic(), Diagnostic::UnusedUnsafe);
}

#[test]
fn laundering_in_the_callee_expression_is_rejected() {
    let zero = FnCall { callee: tainted(), callee_is_unsafe: true, args: vec![] };
    assert_eq!(
        refused(internal_prudent_unsafe_fn(&zero)),
        vec![Violation::Laundering(Site::Callee)]
    );
    let some = FnCall { callee: tainted(), callee_is_unsafe: true, args: vec![clean()] };
    assert_eq!(
        refused(internal_prudent_unsafe_fn(&some)),
        vec![Violation::Laundering(Site::Callee)]
    );
}

#[test]
fn forged_unsafe_is_rejected_with_zero_and_some_arguments() {
    for n in [0usize, 1, 3] {
        let v = refused(internal_prudent_unsafe_fn(&fn_call(false, vec![clean(); n])));
        assert_eq!(v, vec![Violation::ForgedUnsafe]);
        assert_eq!(v[0].diagnostic(), Diagnostic::TypeMismatch);
    }
}

#[test]
fn every_function_violation_is_reported_in_order() {
    let call = FnCall {
        callee: tainted(),
        callee_is_unsafe: false,
        args: vec![tainted(), clean(), tainted()],
    };
    assert_eq!(
        refused(internal_prudent_unsafe_fn(&call)),
        vec![
            Violation::Laundering(Site::Argument(0)),
            Violation::Laundering(Site::Argument(2)),
            Violation::Laundering(Site::Callee),
            Violation::ForgedUnsafe,
        ]
    );
}

#[test]
fn arity_beyond_the_ceiling_fails_closed() {
    let v = refused(internal_prudent_unsafe_fn(&fn_call(true, vec![clean(); 13])));
    assert_eq!(v, vec![Violation::TooManyArguments]);
    assert_eq!(v[0].diagnostic(), Diagnostic::ArityCeiling);
    let m = refused(internal_prudent_unsafe_method(&method_call(
        false,
        false,
        clean(),
        vec![clean(); 13],
    )));
    assert_eq!(m, vec![Violation::TooManyArguments]);
}

#[test]
fn both_markers_are_rejected_whatever_the_arguments() {
    for n in [0usize, 1, 3, 20] {
        let v = refused(internal_prudent_unsafe_method(&method_call(
            true,
            true,
            tainted(),
            vec![tainted(); n],
        )));
        assert_eq!(v, vec![Violation::ConflictingMarkers]);
        assert_eq!(v[0].diagnostic(), Diagnostic::ConflictingMarkers);
    }
}

#[test]
fn resolving_the_markers() {
    assert_eq!(resolve_discipline(false, false), Ok(Discipline::Unspecified));
    assert_eq!(resolve_discipline(true, false), Ok(Discipline::AllowUnsafe));
    assert_eq!(resolve_discipline(false, true), Ok(Discipline::ExpectUnsafe));
    assert_eq!(resolve_discipline(true, true), Err(Violation::ConflictingMarkers));
    assert_eq!(Discipline::Unspecified.region_lint(), LintLevel::Deny);
    assert_eq!(Discipline::AllowUnsafe.region_lint(), LintLevel::Allow);
    assert_eq!(Discipline::ExpectUnsafe.region_lint(), LintLevel::Expect);
}

#[test]
fn unsafe_receiver_without_marker_is_rejected() {
    let v = refused(internal_prudent_unsafe_method(&method_call(
        false,
        false,
        tainted(),
        vec![clean()],
    )));
    assert_eq!(v, vec![Violation::Laundering(Site::Receiver)]);
}

#[test]
fn allow_marker_accepts_unsafe_receiver() {
    let e = accepted(internal_prudent_unsafe_method(&method_call(
        true,
        false,
        tainted(),
        vec![clean()],
    )));
    assert_eq!(e.region_lint, LintLevel::Allow);
    assert!(!e.unfulfilled_expectation);
    assert_eq!(e.oracle, None);
}

#[test]
fn expect_marker_warns_only_when_receiver_is_plain() {
    let met = accepted(internal_prudent_unsafe_method(&method_call(
        false,
        true,
        tainted(),
        vec![],
    )));
    assert_eq!(met.region_lint, LintLevel::Expect);
    assert!(!met.unfulfilled_expectation);
    let unmet = accepted(internal_prudent_unsafe_method(&method_call(
        false,
        true,
        clean(),
        vec![],
    )));
    assert!(unmet.unfulfilled_expectation);
}

#[test]
fn safe_method_is_reported_as_not_needing_unsafe() {
    for n in [0usize, 2] {
        let call = MethodCall {
            receiver: clean(),
            method_is_unsafe: false,
            allow_unsafe: false,
            expect_unsafe: false,
            args: vec![clean(); n],
        };
        let v = refused(internal_prudent_unsafe_method(&call));
        assert_eq!(v, vec![Violation::MissingUnsafety]);
        assert_eq!(v[0].diagnostic(), Diagnostic::UnusedUnsafe);
    }
}

#[test]
fn laundering_in_a_method_argument_is_rejected() {
    let call = MethodCall {
        receiver: tainted(),
        method_is_unsafe: false,
        allow_unsafe: false,
        expect_unsafe: false,
        args: vec![clean(), tainted()],
    };
    assert_eq!(
        refused(internal_prudent_unsafe_method(&call)),
        vec![
            Violation::Laundering(Site::Receiver),
            Violation::Laundering(Site::Argument(1)),
            Violation::MissingUnsafety,
        ]
    );
}

#[test]
fn method_arguments_reach_the_call_in_order() {
    let e = accepted(internal_prudent_unsafe_method(&method_call(
        false,
        false,
        clean(),
        vec![clean(); 12],
    )));
    let values: Vec<u8> = (1..=12).collect();
    let tree = build_tuple_tree(values.clone()).unwrap();
    let got: Vec<u8> = e.accessors.iter().map(|p| *apply_accessor(&tree, p).unwrap()).collect();
    assert_eq!(got, values);
}
