use std::sync::Arc;
use vstd::prelude::*;
use vstd::string::StringExecFns;

verus! {

/// The path of an actor in the actor tree: the chain of names from the root
/// actor down to the actor itself.
///
/// A path is a node shared by its clones: two paths denote the same actor
/// when they are clones of one node, whatever their names. Paths made
/// separately are different nodes, even with equal names.
pub struct ActorPath {
    pub(crate) inner: Arc<ActorPathInner>,
}

/// The contents of an [ActorPath]: the parent path (none for a root), the
/// actor's own name, and the full, `/`-separated name of the path.
pub struct ActorPathInner {
    pub parent: Option<ActorPath>,
    pub name: String,
    pub full_name: String,
}

/// `a` is a proper prefix of `b`.
pub open spec fn is_proper_prefix(a: Seq<Seq<char>>, b: Seq<Seq<char>>) -> bool {
    a.len() < b.len() && b.subrange(0, a.len() as int) == a
}

/// The path `k` steps up from `p` along the parents: `p` itself for no step,
/// none once the root is passed.
pub open spec fn kth_parent(p: ActorPath, k: nat) -> Option<ActorPath>
    decreases k,
{
    if k == 0 {
        Some(p)
    } else {
        match p.parent_path() {
            None => None,
            Some(q) => kth_parent(q, (k - 1) as nat),
        }
    }
}

/// `a` is found one or more steps up from `b` along the parents.
pub open spec fn is_strict_ancestor(a: ActorPath, b: ActorPath) -> bool {
    exists|k: nat| k >= 1 && #[trigger] kth_parent(b, k) == Some(a)
}

impl ActorPath {
    /// The names along the path, from the root down to this actor.
    pub closed spec fn names(self) -> Seq<Seq<char>>
        decreases self,
    {
        match self.inner.parent {
            None => seq![self.inner.name@],
            Some(parent) => parent.names().push(self.inner.name@),
        }
    }

    /// The parent of this path, if any.
    pub closed spec fn parent_path(self) -> Option<ActorPath> {
        self.inner.parent
    }

    /// The name of the actor at the end of this path.
    pub closed spec fn name_view(self) -> Seq<char> {
        self.inner.name@
    }

    /// The full name of this path.
    pub closed spec fn full_name_view(self) -> Seq<char> {
        self.inner.full_name@
    }

    /// The full name is the root's name followed by `/` and each further name.
    pub closed spec fn well_formed(self) -> bool
        decreases self,
    {
        match self.inner.parent {
            None => self.inner.full_name@ == self.inner.name@,
            Some(parent) => parent.well_formed() && self.inner.full_name@ == parent.inner.full_name@
                + "/"@ + self.inner.name@,
        }
    }

    pub proof fn lemma_names_len(self)
        ensures
            self.names().len() >= 1,
            self.names().last() == self.name_view(),
            self.parent_path() is None <==> self.names().len() == 1,
            self.parent_path() matches Some(p) ==> self.names() == p.names().push(self.name_view()),
        decreases self,
    {
        reveal_strlit("/");
        match self.inner.parent {
            None => {},
            Some(parent) => {
                parent.lemma_names_len();
            },
        }
    }

    /// Creates the path of a root actor, whose full name is its name.
    pub fn new(name: &str) -> (path: ActorPath)
        ensures
            path.names() == seq![name@],
            path.parent_path() is None,
            path.name_view() == name@,
            path.full_name_view() == name@,
            path.well_formed(),
    {
        ActorPath {
            inner: Arc::new(
                ActorPathInner {
                    parent: None,
                    name: String::from_str(name),
                    full_name: String::from_str(name),
                },
            ),
        }
    }

    /// Whether the two paths are the same node, that is, denote the same
    /// actor. Only the same node is the same path, so the same node holds
    /// the same parent, name and full name.
    pub fn is_same_as(&self, other: &ActorPath) -> (same: bool)
        ensures
            same ==> *self == *other,
    {
        same_node(&self.inner, &other.inner)
    }

    /// Whether this path is a strict ancestor of `other`: the parent of
    /// `other`, or an ancestor of that parent. What it finds is a node one or
    /// more steps up from `other`; a root has no ancestor.
    pub fn is_ancestor_of(&self, other: &ActorPath) -> (ancestor: bool)
        ensures
            ancestor ==> is_strict_ancestor(*self, *other),
            other.parent_path() is None ==> !ancestor,
        decreases other,
    {
        match &other.inner.parent {
            None => false,
            Some(path) => {
                if self.is_same_as(path) {
                    assert(kth_parent(*other, 1) == Some(*self)) by {
                        assert(kth_parent(*path, 0) == Some(*path));
                    }
                    true
                } else {
                    let r = self.is_ancestor_of(path);
                    proof {
                        if r {
                            let k = choose|k: nat| k >= 1 && #[trigger] kth_parent(*path, k) == Some(*self);
                            assert(kth_parent(*other, k + 1) == kth_parent(*path, k));
                        }
                    }
                    r
                }
            },
        }
    }

    /// Whether this path is the parent of `other`.
    pub fn is_parent_of(&self, other: &ActorPath) -> (parent: bool)
        ensures
            parent ==> other.parent_path() == Some(*self),
            other.parent_path() is None ==> !parent,
    {
        match &other.inner.parent {
            None => false,
            Some(path) => self.is_same_as(path),
        }
    }

    /// Whether this path is a child of `other`.
    pub fn is_child_of(&self, other: &ActorPath) -> (child: bool)
        ensures
            child ==> self.parent_path() == Some(*other),
            self.parent_path() is None ==> !child,
    {
        match &self.inner.parent {
            None => false,
            Some(path) => other.is_same_as(path),
        }
    }

    /// Whether this path is a strict descendant of `other`.
    pub fn is_descendant_of(&self, other: &ActorPath) -> (descendant: bool)
        ensures
            descendant ==> is_strict_ancestor(*other, *self),
            self.parent_path() is None ==> !descendant,
    {
        other.is_ancestor_of(self)
    }

    /// The path of a child actor named `name` under this path; its full name
    /// is this path's full name, `/` and `name`.
    pub fn make_child_path(&self, name: &str) -> (child: ActorPath)
        ensures
            child.names() == self.names().push(name@),
            child.parent_path() == Some(*self),
            child.name_view() == name@,
            child.full_name_view() == self.full_name_view() + "/"@ + name@,
            self.well_formed() ==> child.well_formed(),
    {
        let mut full_name = self.inner.full_name.clone();
        full_name.append("/");
        full_name.append(name);
        ActorPath {
            inner: Arc::new(
                ActorPathInner { parent: Some(self.clone()), name: String::from_str(name), full_name },
            ),
        }
    }
}

/// Calls `Arc::ptr_eq`: true when both point to one allocation, in which
/// case the values behind them are one and the same. When false, nothing is
/// said: two allocations may hold equal values.
#[verifier::external_body]
fn same_node(a: &Arc<ActorPathInner>, b: &Arc<ActorPathInner>) -> (same: bool)
    ensures
        same ==> *a == *b,
{
    Arc::ptr_eq(a, b)
}

/// Shares the path's contents: `Arc::clone` returns a pointer to the same
/// allocation, so the value behind it is unchanged.
#[verifier::external_body]
fn share_inner(inner: &Arc<ActorPathInner>) -> (shared: Arc<ActorPathInner>)
    ensures
        shared == *inner,
{
    Arc::clone(inner)
}

impl Clone for ActorPath {
    fn clone(&self) -> (path: Self)
        ensures
            path == *self,
    {
        ActorPath { inner: share_inner(&self.inner) }
    }
}

impl std::ops::Deref for ActorPath {
    type Target = ActorPathInner;

    /// The contents of the path: its parent, its name and its full name.
    fn deref(&self) -> (contents: &ActorPathInner)
        ensures
            contents.parent == self.parent_path(),
            contents.name@ == self.name_view(),
            contents.full_name@ == self.full_name_view(),
    {
        &self.inner
    }
}

impl PartialEq for ActorPath {
    /// Whether the two paths are the same node; see [ActorPath::is_same_as].
    fn eq(&self, other: &Self) -> (same: bool)
        ensures
            same ==> *self == *other,
    {
        self.is_same_as(other)
    }
}

impl vstd::std_specs::cmp::PartialEqSpecImpl for ActorPath {
    open spec fn obeys_eq_spec() -> bool {
        false
    }

    open spec fn eq_spec(&self, other: &ActorPath) -> bool {
        *self == *other
    }
}

impl Eq for ActorPath {

}

/// Calls `Hash::hash` of `String`, feeding the full name into `state`; what
/// the hasher then holds is left unsaid.
#[verifier::external_body]
fn hash_full_name<H: std::hash::Hasher>(full_name: &String, state: &mut H) {
    std::hash::Hash::hash(full_name, state)
}

impl std::hash::Hash for ActorPath {
    /// Hashes the path by its full name.
    fn hash<H: std::hash::Hasher>(&self, state: &mut H) {
        hash_full_name(&self.inner.full_name, state)
    }
}

/// Stepping `k` then `j` parents up is stepping `k + j` up.
pub proof fn lemma_kth_parent_add(c: ActorPath, k: nat, j: nat)
    ensures
        kth_parent(c, k + j) == match kth_parent(c, k) {
            Some(b) => kth_parent(b, j),
            None => None::<ActorPath>,
        },
    decreases k,
{
    if k > 0 {
        if let Some(q) = c.parent_path() {
            lemma_kth_parent_add(q, (k - 1) as nat, j);
            assert((k + j - 1) as nat == (k - 1) as nat + j);
        }
    }
}

/// The path `k` steps up from `b` names the first names of `b`, all but `k`.
pub proof fn lemma_kth_parent_names(b: ActorPath, k: nat)
    ensures
        kth_parent(b, k) matches Some(a) ==> k < b.names().len() && a.names() == b.names().subrange(
            0,
            b.names().len() - k,
        ),
    decreases k,
{
    b.lemma_names_len();
    if k == 0 {
        assert(b.names().subrange(0, b.names().len() as int) =~= b.names());
    } else if let Some(q) = b.parent_path() {
        lemma_kth_parent_names(q, (k - 1) as nat);
        q.lemma_names_len();
        if let Some(a) = kth_parent(q, (k - 1) as nat) {
            assert(b.names().subrange(0, b.names().len() - k) =~= q.names().subrange(
                0,
                q.names().len() - (k - 1),
            ));
        }
    }
}

/// An ancestor's names are a proper prefix of the names of its descendant.
pub proof fn law_ancestor_names(a: ActorPath, b: ActorPath)
    requires
        is_strict_ancestor(a, b),
    ensures
        is_proper_prefix(a.names(), b.names()),
{
    let k = choose|k: nat| k >= 1 && #[trigger] kth_parent(b, k) == Some(a);
    lemma_kth_parent_names(b, k);
}

/// A parent is an ancestor.
pub proof fn law_parent_is_ancestor(a: ActorPath, b: ActorPath)
    requires
        b.parent_path() == Some(a),
    ensures
        is_strict_ancestor(a, b),
{
    assert(kth_parent(a, 0) == Some(a));
    assert(kth_parent(b, 1) == Some(a));
}

/// The path that `make_child_path` gives for `p` has `p` as parent and
/// ancestor, and is neither `p` nor any ancestor of `p`: its names are
/// longer than theirs.
pub proof fn law_child_path_is_child(p: ActorPath, child: ActorPath)
    requires
        child.parent_path() == Some(p),
    ensures
        is_strict_ancestor(p, child),
        child != p,
        forall|q: ActorPath| is_strict_ancestor(q, p) ==> child != q,
        !is_strict_ancestor(child, p),
{
    law_parent_is_ancestor(p, child);
    law_ancestor_names(p, child);
    assert forall|q: ActorPath| is_strict_ancestor(q, p) implies child != q by {
        law_ancestor_names(q, p);
    }
    if is_strict_ancestor(child, p) {
        law_ancestor_names(child, p);
    }
}

/// Ancestry is transitive: an ancestor of an ancestor is an ancestor.
pub proof fn law_ancestor_transitive(a: ActorPath, b: ActorPath, c: ActorPath)
    requires
        is_strict_ancestor(a, b),
        is_strict_ancestor(b, c),
    ensures
        is_strict_ancestor(a, c),
{
    let j = choose|j: nat| j >= 1 && #[trigger] kth_parent(b, j) == Some(a);
    let k = choose|k: nat| k >= 1 && #[trigger] kth_parent(c, k) == Some(b);
    lemma_kth_parent_add(c, k, j);
    assert(kth_parent(c, k + j) == Some(a));
}

/// No path is its own ancestor, and no two paths are ancestors of each
/// other; a root is nobody's descendant.
pub proof fn law_ancestor_strict(a: ActorPath, b: ActorPath)
    ensures
        !is_strict_ancestor(a, a),
        is_strict_ancestor(a, b) ==> !is_strict_ancestor(b, a),
        a.parent_path() is None ==> !is_strict_ancestor(b, a),
{
    if is_strict_ancestor(a, a) {
        law_ancestor_names(a, a);
    }
    if is_strict_ancestor(a, b) && is_strict_ancestor(b, a) {
        law_ancestor_names(a, b);
        law_ancestor_names(b, a);
    }
    if a.parent_path() is None && is_strict_ancestor(b, a) {
        let k = choose|k: nat| k >= 1 && #[trigger] kth_parent(a, k) == Some(b);
        assert(kth_parent(a, k) is None);
    }
}

/// A path is an ancestor of another exactly when it is that path's parent
/// or an ancestor of that parent.
pub proof fn law_ancestor_through_parent(a: ActorPath, b: ActorPath)
    ensures
        b.parent_path() matches Some(p) ==> is_strict_ancestor(a, b) == (a == p || is_strict_ancestor(a, p)),
{
    if let Some(p) = b.parent_path() {
        if is_strict_ancestor(a, b) {
            let k = choose|k: nat| k >= 1 && #[trigger] kth_parent(b, k) == Some(a);
            if k > 1 {
                assert(kth_parent(p, (k - 1) as nat) == Some(a));
            } else {
                assert(kth_parent(p, 0) == Some(p));
            }
        }
        if a == p {
            law_parent_is_ancestor(p, b);
        }
        if is_strict_ancestor(a, p) {
            let k = choose|k: nat| k >= 1 && #[trigger] kth_parent(p, k) == Some(a);
            assert(kth_parent(b, k + 1) == kth_parent(p, k));
        }
    }
}

} // verus!
