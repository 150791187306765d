use prudent::oracle::{oracle_path, OracleSegment, MAX_ARITY};

#[test]
fn oracle_of_no_arguments_is_the_root_function() {
    assert_eq!(oracle_path(0), Some(vec![OracleSegment::Root, OracleSegment::Fun]));
}

#[test]
fn oracle_of_two_arguments_nests_two_modules() {
    assert_eq!(
        oracle_path(2),
        Some(vec![
            OracleSegment::Root,
            OracleSegment::Arg,
            OracleSegment::Arg,
            OracleSegment::Fun,
        ])
    );
}

#[test]
fn oracle_covers_up_to_the_ceiling() {
    assert_eq!(MAX_ARITY, 12);
    for k in 0..=MAX_ARITY {
        let p = oracle_path(k).expect("supported arity");
        assert_eq!(p.len(), k + 2);
        assert_eq!(p[0], OracleSegment::Root);
        assert_eq!(p[k + 1], OracleSegment::Fun);
        assert!(p[1..k + 1].iter().all(|s| *s == OracleSegment::Arg));
    }
}

#[test]
fn oracle_beyond_the_ceiling_fails_closed() {
    assert_eq!(oracle_path(13), None);
    assert_eq!(oracle_path(100), None);
}
