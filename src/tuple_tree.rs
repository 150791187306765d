//! Right-nested tuple trees of call arguments, and the accessor paths that read them back.
use vstd::prelude::*;

verus! {

/// One projection step into a tuple tree: field `.0` or field `.1` of a tuple.
#[derive(Clone, Copy, PartialEq, Eq, Debug, Structural)]
pub enum Step {
    /// Field `.0`: the value held at this level.
    First,
    /// Field `.1`: the rest of the tree.
    Second,
}

/// The accessor path of the argument at 0-based `position`: `position` steps into the rest of
/// the tree, then the value held there (`tree.1.1.0` for the third argument).
pub open spec fn accessor_path(position: nat) -> Seq<Step> {
    Seq::new(position, |_i: int| Step::Second).push(Step::First)
}

/// Taking one step into the rest of the tree and then the path of position `position` reaches
/// position `position + 1`.
pub proof fn lemma_accessor_path_step(position: nat)
    ensures
        accessor_path(position + 1) == seq![Step::Second] + accessor_path(position),
{
    assert(accessor_path(position + 1) =~= seq![Step::Second] + accessor_path(position));
}

/// A right-nested tuple tree of call arguments: `(a1, (a2, (a3,)))` holds three.
pub enum TupleTree<T> {
    /// The innermost one-element tuple `(last,)`.
    Last(T),
    /// A pair `(first, rest)`.
    Pair(T, Box<TupleTree<T>>),
}

impl<T> TupleTree<T> {
    /// The value at the top level: field `.0`.
    pub open spec fn head(self) -> T {
        match self {
            TupleTree::Last(x) => x,
            TupleTree::Pair(x, _) => x,
        }
    }

    /// The arguments that the tree holds, left to right.
    pub open spec fn elems(self) -> Seq<T>
        decreases self,
    {
        match self {
            TupleTree::Last(x) => seq![x],
            TupleTree::Pair(x, rest) => seq![x] + rest.elems(),
        }
    }
}

/// The value that `path` reaches in `tree`, or `None` where a step names a field that is not
/// there (`.1` of the innermost tuple), or where steps go on past a value.
pub open spec fn project<T>(tree: TupleTree<T>, path: Seq<Step>) -> Option<T>
    decreases path.len(),
{
    if path.len() == 0 {
        None
    } else {
        match path[0] {
            Step::First => if path.len() == 1 {
                Some(tree.head())
            } else {
                None
            },
            Step::Second => match tree {
                TupleTree::Pair(_, rest) => project(*rest, path.drop_first()),
                TupleTree::Last(_) => None,
            },
        }
    }
}

/// Whether `tree` is what packing `args` gives: no tree for no arguments, else a tree that holds
/// them in order.
pub open spec fn packs<T>(tree: Option<TupleTree<T>>, args: Seq<T>) -> bool {
    match tree {
        Some(t) => t.elems() == args,
        None => args.len() == 0,
    }
}

/// What reading each of the first `arity` positions of `tree` by its accessor path gives, in
/// order.
pub open spec fn extract_all<T>(tree: Option<TupleTree<T>>, arity: nat) -> Seq<T> {
    match tree {
        Some(t) => Seq::new(arity, |i: int| project(t, accessor_path(i as nat))->Some_0),
        None => Seq::empty(),
    }
}

/// The accessor path of a position inside the tree reaches the argument at that position.
pub proof fn lemma_project_accessor_path<T>(tree: TupleTree<T>, position: nat)
    requires
        position < tree.elems().len(),
    ensures
        project(tree, accessor_path(position)) == Some(tree.elems()[position as int]),
    decreases position,
{
    if position == 0 {
        match tree {
            TupleTree::Last(_) => {},
            TupleTree::Pair(_, _) => {},
        }
    } else {
        lemma_accessor_path_step((position - 1) as nat);
        assert((seq![Step::Second] + accessor_path((position - 1) as nat)).drop_first()
            =~= accessor_path((position - 1) as nat));
        match tree {
            TupleTree::Last(_) => {},
            TupleTree::Pair(_, rest) => {
                lemma_project_accessor_path(*rest, (position - 1) as nat);
            },
        }
    }
}

/// Arity completeness: for each arity, the accessor paths are pairwise distinct, and the path of
/// each position reads, from the tree that packs the arguments, the argument at that position.
pub proof fn arity_completeness<T>(tree: Option<TupleTree<T>>, args: Seq<T>)
    requires
        packs(tree, args),
    ensures
        forall|i: nat, j: nat|
            i < args.len() && j < args.len() && i != j ==> #[trigger] accessor_path(i)
                != #[trigger] accessor_path(j),
        forall|i: nat|
            i < args.len() ==> project(tree->Some_0, #[trigger] accessor_path(i)) == Some(
                args[i as int],
            ),
{
    assert forall|i: nat, j: nat|
        i < args.len() && j < args.len() && i != j implies #[trigger] accessor_path(i)
        != #[trigger] accessor_path(j) by {
        assert(accessor_path(i).len() != accessor_path(j).len());
    }
    assert forall|i: nat| i < args.len() implies project(
        tree->Some_0,
        #[trigger] accessor_path(i),
    ) == Some(args[i as int]) by {
        lemma_project_accessor_path(tree->Some_0, i);
    }
}

/// Round trip: packing arguments into a tuple tree and reading every position back through its
/// accessor path gives the arguments again, in their order.
pub proof fn round_trip<T>(tree: Option<TupleTree<T>>, args: Seq<T>)
    requires
        packs(tree, args),
    ensures
        readable(tree, args.len()),
        extract_all(tree, args.len()) == args,
{
    arity_completeness(tree, args);
    if let Some(t) = tree {
        assert forall|i: nat| i < args.len() implies (#[trigger] project(t, accessor_path(i))) is Some by {
            assert(project(t, accessor_path(i)) == Some(args[i as int]));
        }
    }
    assert(extract_all(tree, args.len()) =~= args);
}

/// Packs the arguments, left to right, into a tuple tree. No arguments give no tree: a call
/// without arguments packs nothing.
pub fn build_tuple_tree<T>(args: Vec<T>) -> (r: Option<TupleTree<T>>)
    ensures
        packs(r, args@),
{
    let ghost all = args@;
    let mut rest = args;
    let mut tree = match rest.pop() {
        Some(last) => TupleTree::Last(last),
        None => {
            return None;
        },
    };
    while rest.len() > 0
        invariant
            rest@.len() < all.len(),
            rest@ == all.subrange(0, rest@.len() as int),
            tree.elems() == all.subrange(rest@.len() as int, all.len() as int),
        decreases rest.len(),
    {
        let ghost k = rest@.len() as int;
        let first = rest.pop().unwrap();
        tree = TupleTree::Pair(first, Box::new(tree));
        assert(tree.elems() =~= all.subrange(k - 1, all.len() as int));
    }
    assert(tree.elems() =~= all);
    Some(tree)
}

/// Follows `path` through `tree`, step by step, and gives the value that it reaches. Reading is
/// pure: nothing is moved or evaluated again.
pub fn apply_accessor<'a, T>(tree: &'a TupleTree<T>, path: &[Step]) -> (r: Option<&'a T>)
    ensures
        match r {
            Some(v) => project(*tree, path@) == Some(*v),
            None => project(*tree, path@) is None,
        },
{
    let mut node: &'a TupleTree<T> = tree;
    let mut i: usize = 0;
    assert(path@.subrange(0, path@.len() as int) =~= path@);
    while i < path.len()
        invariant
            i <= path@.len(),
            project(*tree, path@) == project(*node, path@.subrange(i as int, path@.len() as int)),
        decreases path@.len() - i,
    {
        let ghost here = path@.subrange(i as int, path@.len() as int);
        match path[i] {
            Step::First => {
                if i + 1 == path.len() {
                    let v: &'a T = match node {
                        TupleTree::Last(x) => x,
                        TupleTree::Pair(x, _) => x,
                    };
                    return Some(v);
                } else {
                    return None;
                }
            },
            Step::Second => {
                match node {
                    TupleTree::Pair(_, rest) => {
                        assert(here.drop_first() =~= path@.subrange(i + 1, path@.len() as int));
                        node = &**rest;
                    },
                    TupleTree::Last(_) => {
                        return None;
                    },
                }
            },
        }
        i = i + 1;
    }
    None
}

/// `path` with one step into the rest of the tree put in front of it.
fn prefixed_with_second(path: &Vec<Step>) -> (r: Vec<Step>)
    ensures
        r@ == seq![Step::Second] + path@,
{
    let mut r: Vec<Step> = Vec::new();
    r.push(Step::Second);
    let mut m: usize = 0;
    while m < path.len()
        invariant
            m <= path@.len(),
            r@ == seq![Step::Second] + path@.subrange(0, m as int),
        decreases path@.len() - m,
    {
        r.push(path[m]);
        m = m + 1;
        assert(r@ =~= seq![Step::Second] + path@.subrange(0, m as int));
    }
    assert(path@.subrange(0, m as int) =~= path@);
    r
}

/// The accessor paths of a call with `arity` arguments, by induction on the arity: the last
/// argument is read by `.0` of the innermost tuple; for one argument more, each path takes one
/// step into the rest of the tree first, and the new first argument is read by `.0`.
pub fn build_accessor_paths(arity: usize) -> (r: Vec<Vec<Step>>)
    ensures
        r@.len() == arity,
        forall|i: int| 0 <= i < arity ==> (#[trigger] r@[i])@ == accessor_path(i as nat),
{
    let mut paths: Vec<Vec<Step>> = Vec::new();
    if arity == 0 {
        return paths;
    }
    paths.push(vec![Step::First]);
    assert(accessor_path(0) =~= seq![Step::First]);
    let mut k: usize = 1;
    while k < arity
        invariant
            1 <= k <= arity,
            paths@.len() == k,
            forall|i: int| 0 <= i < k ==> (#[trigger] paths@[i])@ == accessor_path(i as nat),
        decreases arity - k,
    {
        let mut next: Vec<Vec<Step>> = Vec::new();
        next.push(vec![Step::First]);
        let mut j: usize = 0;
        while j < paths.len()
            invariant
                j <= paths@.len() == k,
                forall|i: int| 0 <= i < k ==> (#[trigger] paths@[i])@ == accessor_path(i as nat),
                next@.len() == j + 1,
                forall|i: int| 0 <= i <= j ==> (#[trigger] next@[i])@ == accessor_path(i as nat),
            decreases k - j,
        {
            let longer = prefixed_with_second(&paths[j]);
            proof {
                lemma_accessor_path_step(j as nat);
            }
            next.push(longer);
            j = j + 1;
        }
        paths = next;
        k = k + 1;
    }
    paths
}

/// Whether every one of the first `arity` positions can be read from `tree`.
pub open spec fn readable<T>(tree: Option<TupleTree<T>>, arity: nat) -> bool {
    match tree {
        Some(t) => forall|i: nat| i < arity ==> (#[trigger] project(t, accessor_path(i))) is Some,
        None => arity == 0,
    }
}

/// Reads the first `arity` arguments back from `tree`, each through its accessor path, in order;
/// `None` where a position cannot be read.
pub fn read_arguments<T: Copy>(tree: &Option<TupleTree<T>>, arity: usize) -> (r: Option<Vec<T>>)
    ensures
        r is Some <==> readable(*tree, arity as nat),
        r matches Some(v) ==> v@ == extract_all(*tree, arity as nat),
{
    match tree {
        Some(t) => read_from_tree(t, arity),
        None => {
            if arity == 0 {
                Some(Vec::new())
            } else {
                None
            }
        },
    }
}

fn read_from_tree<T: Copy>(t: &TupleTree<T>, arity: usize) -> (r: Option<Vec<T>>)
    ensures
        r is Some <==> readable(Some(*t), arity as nat),
        r matches Some(v) ==> v@ == extract_all(Some(*t), arity as nat),
{
    let paths = build_accessor_paths(arity);
    let mut out: Vec<T> = Vec::new();
    let mut i: usize = 0;
    while i < arity
        invariant
            i <= arity,
            paths@.len() == arity,
            forall|k: int| 0 <= k < arity ==> (#[trigger] paths@[k])@ == accessor_path(k as nat),
            out@.len() == i,
            forall|k: int|
                0 <= k < i ==> Some(#[trigger] out@[k]) == project(*t, accessor_path(k as nat)),
        decreases arity - i,
    {
        match apply_accessor(t, paths[i].as_slice()) {
            Some(v) => {
                out.push(*v);
            },
            None => {
                assert(project(*t, accessor_path(i as nat)) is None);
                return None;
            },
        }
        i = i + 1;
    }
    assert(out@ =~= extract_all(Some(*t), arity as nat));
    assert forall|k: nat| k < arity implies (#[trigger] project(*t, accessor_path(k))) is Some by {
        assert(Some(out@[k as int]) == project(*t, accessor_path(k)));
    }
    Some(out)
}

} // verus!
