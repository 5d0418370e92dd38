//! Lexical normalisation of filesystem paths, without touching the filesystem.

use vstd::prelude::*;

verus! {

/// One component of a filesystem path, as a path is split lexically.
#[derive(Clone, Debug, PartialEq, Eq)]
pub enum PathComponent {
    /// A drive or volume prefix, with its text.
    Prefix(String),
    /// The root directory.
    RootDir,
    /// A reference to the current directory, `.`.
    CurDir,
    /// A reference to the parent directory, `..`.
    ParentDir,
    /// An ordinary name.
    Normal(String),
}

/// The mathematical value of a [`PathComponent`]: its kind and its characters.
pub enum Segment {
    Prefix(Seq<char>),
    RootDir,
    CurDir,
    ParentDir,
    Normal(Seq<char>),
}

impl View for PathComponent {
    type V = Segment;

    open spec fn view(&self) -> Segment {
        match self {
            PathComponent::Prefix(text) => Segment::Prefix(text@),
            PathComponent::RootDir => Segment::RootDir,
            PathComponent::CurDir => Segment::CurDir,
            PathComponent::ParentDir => Segment::ParentDir,
            PathComponent::Normal(text) => Segment::Normal(text@),
        }
    }
}

impl PathComponent {
    /// A copy of this component with the same kind and text.
    pub fn duplicate(&self) -> (copy: PathComponent)
        ensures
            copy@ == self@,
    {
        match self {
            PathComponent::Prefix(text) => PathComponent::Prefix(text.clone()),
            PathComponent::RootDir => PathComponent::RootDir,
            PathComponent::CurDir => PathComponent::CurDir,
            PathComponent::ParentDir => PathComponent::ParentDir,
            PathComponent::Normal(text) => PathComponent::Normal(text.clone()),
        }
    }
}

/// The segments that a sequence of components stands for.
pub open spec fn segments(components: Seq<PathComponent>) -> Seq<Segment> {
    Seq::new(components.len(), |i: int| components[i]@)
}

/// The effect of one segment on the stack of segments kept so far: `.` leaves
/// it alone, `..` removes the top where there is one, anything else is kept.
pub open spec fn absorb(stack: Seq<Segment>, segment: Segment) -> Seq<Segment> {
    match segment {
        Segment::CurDir => stack,
        Segment::ParentDir => if stack.len() > 0 {
            stack.drop_last()
        } else {
            stack
        },
        _ => stack.push(segment),
    }
}

/// The lexically normalised form of a path: its segments absorbed from left to
/// right, starting from nothing.
pub open spec fn normalize(path: Seq<Segment>) -> Seq<Segment>
    decreases path.len(),
{
    if path.len() == 0 {
        Seq::empty()
    } else {
        absorb(normalize(path.drop_last()), path.last())
    }
}

/// Whether a path holds neither `.` nor `..`.
pub open spec fn is_plain(path: Seq<Segment>) -> bool {
    forall|i: int| 0 <= i < path.len() ==> path[i] != Segment::CurDir && path[i] != Segment::ParentDir
}

/// Resolves the `.` and `..` components of a path lexically. A `..` with
/// nothing before it to remove is dropped. The result holds neither `.` nor
/// `..`, so resolving it again changes nothing.
pub fn resolve_relative_path(components: &Vec<PathComponent>) -> (resolved: Vec<PathComponent>)
    ensures
        segments(resolved@) == normalize(segments(components@)),
        is_plain(segments(resolved@)),
        normalize(segments(resolved@)) == segments(resolved@),
        resolved@.len() <= components@.len(),
{
    let mut stack: Vec<PathComponent> = Vec::new();
    let mut i: usize = 0;
    proof {
        assert(segments(components@).take(0) =~= Seq::<Segment>::empty());
        assert(segments(stack@) =~= Seq::<Segment>::empty());
    }
    while i < components.len()
        invariant
            i <= components.len(),
            segments(stack@) == normalize(segments(components@).take(i as int)),
            is_plain(segments(stack@)),
        decreases components.len() - i,
    {
        let ghost before = segments(stack@);
        let ghost prefix = segments(components@).take(i as int + 1);
        proof {
            assert(prefix.drop_last() =~= segments(components@).take(i as int));
            assert(prefix.last() == components@[i as int]@);
        }
        match &components[i] {
            PathComponent::CurDir => {},
            PathComponent::ParentDir => {
                if stack.len() > 0 {
                    stack.pop();
                    assert(segments(stack@) =~= before.drop_last());
                }
            },
            other => {
                stack.push(other.duplicate());
                assert(segments(stack@) =~= before.push(components@[i as int]@));
            },
        }
        i += 1;
    }
    proof {
        assert(segments(components@).take(i as int) =~= segments(components@));
        lemma_normalize_plain(segments(stack@));
        lemma_normalize_shrinks(segments(components@));
    }
    stack
}

/// A normalised path holds neither `.` nor `..`.
pub proof fn lemma_normalize_is_plain(path: Seq<Segment>)
    ensures
        is_plain(normalize(path)),
    decreases path.len(),
{
    if path.len() > 0 {
        lemma_normalize_is_plain(path.drop_last());
    }
}

/// Normalising a path that holds neither `.` nor `..` changes nothing.
pub proof fn lemma_normalize_plain(path: Seq<Segment>)
    requires
        is_plain(path),
    ensures
        normalize(path) == path,
    decreases path.len(),
{
    if path.len() > 0 {
        lemma_normalize_plain(path.drop_last());
        assert(path.drop_last().push(path.last()) =~= path);
    }
}

/// Normalising twice gives the same as normalising once.
pub proof fn lemma_normalize_idempotent(path: Seq<Segment>)
    ensures
        normalize(normalize(path)) == normalize(path),
{
    lemma_normalize_is_plain(path);
    lemma_normalize_plain(normalize(path));
}

/// A `..` at the start of a path has nothing to remove and is dropped.
pub proof fn lemma_leading_parent_dropped(path: Seq<Segment>)
    ensures
        normalize(seq![Segment::ParentDir] + path) == normalize(path),
    decreases path.len(),
{
    let whole = seq![Segment::ParentDir] + path;
    if path.len() == 0 {
        assert(whole.drop_last() =~= Seq::<Segment>::empty());
        assert(normalize(whole.drop_last()) =~= Seq::<Segment>::empty());
    } else {
        lemma_leading_parent_dropped(path.drop_last());
        assert(whole.drop_last() =~= seq![Segment::ParentDir] + path.drop_last());
        assert(whole.last() == path.last());
    }
}

/// A path normalises to no more segments than it has.
pub proof fn lemma_normalize_shrinks(path: Seq<Segment>)
    ensures
        normalize(path).len() <= path.len(),
    decreases path.len(),
{
    if path.len() > 0 {
        lemma_normalize_shrinks(path.drop_last());
    }
}

} // verus!
