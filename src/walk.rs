use crate::object::{is_object_root, object_root, ObjectProbe};
use vstd::prelude::*;

verus! {

/// One result of a depth-first walk below a storage root.
pub enum WalkStep {
    /// An entry the walk could not visit, with the text of the error.
    Failed(String),
    /// A visited entry: its path as it is to be shown, and its snapshot.
    Visited(String, ObjectProbe),
}

/// What enumerating a walk gives: the paths of the object roots, and the errors to
/// report, each in walk order.
pub struct Enumeration {
    pub roots: Vec<String>,
    pub errors: Vec<String>,
}

pub open spec fn views(v: Seq<String>) -> Seq<Seq<char>> {
    v.map_values(|s: String| s@)
}

/// Whether `step` visits an object root whose path is `path`.
pub open spec fn selects(step: WalkStep, path: Seq<char>) -> bool {
    match step {
        WalkStep::Visited(s, p) => s@ == path && object_root(p),
        WalkStep::Failed(_) => false,
    }
}

/// The paths of the object roots that a walk visits, in walk order.
pub open spec fn roots_of(walk: Seq<WalkStep>) -> Seq<Seq<char>>
    decreases walk.len(),
{
    if walk.len() == 0 {
        Seq::empty()
    } else {
        let rest = roots_of(walk.drop_last());
        match walk.last() {
            WalkStep::Visited(path, p) => if object_root(p) {
                rest.push(path@)
            } else {
                rest
            },
            WalkStep::Failed(_) => rest,
        }
    }
}

/// The texts of the errors a walk met, in walk order.
pub open spec fn errors_of(walk: Seq<WalkStep>) -> Seq<Seq<char>>
    decreases walk.len(),
{
    if walk.len() == 0 {
        Seq::empty()
    } else {
        let rest = errors_of(walk.drop_last());
        match walk.last() {
            WalkStep::Failed(msg) => rest.push(msg@),
            WalkStep::Visited(_, _) => rest,
        }
    }
}

/// Picks the object roots out of a walk below a storage root. Every entry is tested, at
/// any depth, and a failed entry is set aside for reporting while the rest go on.
pub fn enumerate_object_roots(walk: &Vec<WalkStep>) -> (r: Enumeration)
    ensures
        views(r.roots@) == roots_of(walk@),
        views(r.errors@) == errors_of(walk@),
{
    let mut roots: Vec<String> = Vec::new();
    let mut errors: Vec<String> = Vec::new();
    let mut i: usize = 0;
    while i < walk.len()
        invariant
            i <= walk.len(),
            views(roots@) == roots_of(walk@.take(i as int)),
            views(errors@) == errors_of(walk@.take(i as int)),
        decreases walk.len() - i,
    {
        let ghost before_roots = roots@;
        let ghost before_errors = errors@;
        match &walk[i] {
            WalkStep::Failed(msg) => {
                errors.push(msg.clone());
                assert(views(errors@) =~= views(before_errors).push(msg@));
            },
            WalkStep::Visited(path, p) => {
                if is_object_root(p) {
                    roots.push(path.clone());
                    assert(views(roots@) =~= views(before_roots).push(path@));
                }
            },
        }
        assert(walk@.take(i + 1).drop_last() =~= walk@.take(i as int));
        i += 1;
    }
    assert(walk@.take(walk.len() as int) =~= walk@);
    Enumeration { roots, errors }
}

/// A path is among the roots of a walk exactly when some step of the walk visits an
/// object root at that path.
pub proof fn lemma_roots_member(walk: Seq<WalkStep>, path: Seq<char>)
    ensures
        roots_of(walk).contains(path) <==> exists|i: int| 0 <= i < walk.len() && selects(#[trigger] walk[i], path),
    decreases walk.len(),
{
    if walk.len() > 0 {
        let rest = walk.drop_last();
        lemma_roots_member(rest, path);
        if roots_of(walk).contains(path) {
            if !roots_of(rest).contains(path) {
                let j = roots_of(walk).len() - 1;
                assert(roots_of(walk)[j] == path);
                assert(selects(walk[walk.len() - 1], path));
            } else {
                let i = choose|i: int| 0 <= i < rest.len() && selects(#[trigger] rest[i], path);
                assert(walk[i] == rest[i]);
            }
        }
        if exists|i: int| 0 <= i < walk.len() && selects(#[trigger] walk[i], path) {
            let i = choose|i: int| 0 <= i < walk.len() && selects(#[trigger] walk[i], path);
            if i == walk.len() - 1 {
                assert(roots_of(walk).last() == path);
            } else {
                assert(rest[i] == walk[i]);
                let k = choose|k: int| 0 <= k < roots_of(rest).len() && roots_of(rest)[k] == path;
                assert(roots_of(walk)[k] == path);
            }
        }
    }
}

/// A walk that visits no object root gives no roots.
pub proof fn lemma_no_object_roots(walk: Seq<WalkStep>)
    requires
        forall|i: int| 0 <= i < walk.len() ==> !(#[trigger] walk[i] matches WalkStep::Visited(_, p) && object_root(p)),
    ensures
        roots_of(walk) == Seq::<Seq<char>>::empty(),
    decreases walk.len(),
{
    if walk.len() > 0 {
        let rest = walk.drop_last();
        assert forall|i: int| 0 <= i < rest.len() implies !(#[trigger] rest[i] matches WalkStep::Visited(_, p) && object_root(p)) by {
            assert(rest[i] == walk[i]);
        }
        lemma_no_object_roots(rest);
        assert(walk.last() == walk[walk.len() - 1]);
    }
}

/// Enumerating is repeatable: two walks over an unchanged tree, which visit the same
/// entries in whatever order, give the same set of object roots.
pub proof fn lemma_enumeration_repeatable(first: Seq<WalkStep>, second: Seq<WalkStep>)
    requires
        first.to_set() == second.to_set(),
    ensures
        roots_of(first).to_set() == roots_of(second).to_set(),
{
    assert forall|path: Seq<char>| roots_of(first).to_set().contains(path) == roots_of(second).to_set().contains(path) by {
        lemma_roots_member(first, path);
        lemma_roots_member(second, path);
        if roots_of(first).contains(path) {
            let i = choose|i: int| 0 <= i < first.len() && selects(#[trigger] first[i], path);
            assert(first.to_set().contains(first[i]));
            assert(second.contains(first[i]));
            let j = choose|j: int| 0 <= j < second.len() && second[j] == first[i];
            assert(selects(second[j], path));
        }
        if roots_of(second).contains(path) {
            let i = choose|i: int| 0 <= i < second.len() && selects(#[trigger] second[i], path);
            assert(second.to_set().contains(second[i]));
            assert(first.contains(second[i]));
            let j = choose|j: int| 0 <= j < first.len() && first[j] == second[i];
            assert(selects(first[j], path));
        }
    }
    assert(roots_of(first).to_set() =~= roots_of(second).to_set());
}

} // verus!
