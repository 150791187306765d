//! The family of `unsafe` reference shapes, one per arity, that a callee is compared against.
use vstd::prelude::*;

verus! {

/// The largest number of call arguments that the reference family covers. Calls with more
/// arguments are refused rather than cut short.
pub const MAX_ARITY: usize = 12;

/// One segment of the path to the reference shape of an arity: the family's root module, one
/// nested `arg` module per argument, and the function `fun` itself.
#[derive(Clone, Copy, PartialEq, Eq, Debug, Structural)]
pub enum OracleSegment {
    /// The module that holds the whole family.
    Root,
    /// One nested `arg` module: one argument more.
    Arg,
    /// The declared-`unsafe` generic function `fun` of that nesting depth.
    Fun,
}

/// The path to the reference shape with `arity` parameters: `Root`, then `arity` times `Arg`,
/// then `Fun`.
pub open spec fn oracle_path_of(arity: nat) -> Seq<OracleSegment> {
    seq![OracleSegment::Root] + Seq::new(arity, |_i: int| OracleSegment::Arg) + seq![
        OracleSegment::Fun,
    ]
}

/// Whether the family has a reference shape with `arity` parameters.
pub open spec fn supported_arity(arity: nat) -> bool {
    arity <= MAX_ARITY
}

/// The path to the reference shape with `arity` parameters, or `None` beyond the family's
/// ceiling.
pub fn oracle_path(arity: usize) -> (r: Option<Vec<OracleSegment>>)
    ensures
        r is Some <==> supported_arity(arity as nat),
        r matches Some(p) ==> p@ == oracle_path_of(arity as nat),
{
    if arity > MAX_ARITY {
        return None;
    }
    let mut path: Vec<OracleSegment> = Vec::new();
    path.push(OracleSegment::Root);
    let mut k: usize = 0;
    while k < arity
        invariant
            k <= arity,
            path@ == seq![OracleSegment::Root] + Seq::new(k as nat, |_i: int| OracleSegment::Arg),
        decreases arity - k,
    {
        path.push(OracleSegment::Arg);
        k = k + 1;
        assert(path@ =~= seq![OracleSegment::Root] + Seq::new(
            k as nat,
            |_i: int| OracleSegment::Arg,
        ));
    }
    path.push(OracleSegment::Fun);
    assert(path@ =~= oracle_path_of(arity as nat));
    Some(path)
}

} // verus!
