//! The attributed document tree, held as an arena of nodes indexed from the
//! root `0`; each node records its parent and its ordered children.
use vstd::prelude::*;
use crate::attrs::{AttrId, AttrValue, Attrs};

verus! {

/// The element kinds that the folding pass tells apart.
#[derive(Clone, Copy, Debug, PartialEq, Eq, Structural)]
pub enum ElemKind {
    Svg,
    G,
    Rect,
    Circle,
    Ellipse,
    Line,
    Other,
}

/// An attributed tree. Node `i` has the kind `kinds[i]`, the attributes
/// `attrs[i]`, the parent `parents[i]` and the children `children[i]`.
pub struct Document {
    pub kinds: Vec<ElemKind>,
    pub attrs: Vec<Attrs>,
    pub parents: Vec<Option<usize>>,
    pub children: Vec<Vec<usize>>,
}

/// What a document holds, as sequences indexed by node.
pub struct DocView {
    pub kinds: Seq<ElemKind>,
    pub attrs: Seq<Attrs>,
    pub parents: Seq<Option<usize>>,
    pub children: Seq<Seq<usize>>,
}

impl DocView {
    /// Number of nodes.
    pub open spec fn len(self) -> int {
        self.kinds.len() as int
    }

    /// The same tree with the attributes `attrs`.
    pub open spec fn with_attrs(self, attrs: Seq<Attrs>) -> DocView {
        DocView { attrs, ..self }
    }

    /// The first value of `key` on node `i` or its nearest ancestors, or
    /// `None` where none of them has it (as an inherited property resolves).
    pub open spec fn lookup(self, i: int, key: AttrId) -> Option<AttrValue>
        decreases i,
    {
        if 0 <= i < self.attrs.len() && self.attrs[i].get_spec(key) is Some {
            self.attrs[i].get_spec(key)
        } else if 0 <= i < self.parents.len() && self.parents[i] is Some && self.parents[i].unwrap()
            < i {
            self.lookup(self.parents[i].unwrap() as int, key)
        } else {
            None
        }
    }
}

impl View for Document {
    type V = DocView;

    open spec fn view(&self) -> DocView {
        DocView {
            kinds: self.kinds@,
            attrs: self.attrs@,
            parents: self.parents@,
            children: Seq::new(self.children@.len(), |i: int| self.children@[i]@),
        }
    }
}

impl Document {
    /// Number of nodes.
    pub open spec fn len_spec(&self) -> int {
        self.kinds@.len() as int
    }

    /// A tree: the root `0` has no parent, every other node has one parent
    /// of smaller index, and the children of a node are exactly the nodes
    /// whose parent it is.
    pub open spec fn wf(&self) -> bool {
        let n = self.kinds@.len();
        &&& n > 0
        &&& self.attrs@.len() == n
        &&& self.parents@.len() == n
        &&& self.children@.len() == n
        &&& self.parents@[0] is None
        &&& forall|i: int|
            0 < i < n ==> (#[trigger] self.parents@[i]) is Some && self.parents@[i].unwrap() < i
        &&& forall|i: int, k: int|
            0 <= i < n && 0 <= k < self.children@[i]@.len() ==> {
                let c = #[trigger] self.children@[i]@[k];
                0 < c < n && self.parents@[c as int] == Some(i as usize)
            }
        &&& forall|c: int|
            0 < c < n ==> self.children@[(#[trigger] self.parents@[c]).unwrap() as int]@.contains(
                c as usize,
            )
    }

    /// The attribute `key` of node `i`.
    pub open spec fn attr(&self, i: int, key: AttrId) -> Option<AttrValue> {
        self.attrs@[i].get_spec(key)
    }

    /// A document of one root node.
    pub fn new(kind: ElemKind, attrs: Attrs) -> (r: Document)
        ensures
            r.wf(),
            r.kinds@ == seq![kind],
            r.attrs@ == seq![attrs],
            r.parents@ == seq![None::<usize>],
            r.children@.len() == 1,
            r.children@[0]@.len() == 0,
    {
        let r = Document {
            kinds: vec![kind],
            attrs: vec![attrs],
            parents: vec![None],
            children: vec![Vec::new()],
        };
        assert(r.children@[0]@.len() == 0);
        r
    }

    /// Number of nodes.
    pub fn len(&self) -> (r: usize)
        ensures
            r == self.len_spec(),
    {
        self.kinds.len()
    }

    /// Adds a node of `kind` with `attrs` as the last child of `parent`,
    /// and returns its index.
    pub fn add_child(&mut self, parent: usize, kind: ElemKind, attrs: Attrs) -> (r: usize)
        requires
            old(self).wf(),
            parent < old(self).len_spec(),
            old(self).len_spec() < usize::MAX,
        ensures
            final(self).wf(),
            r == old(self).len_spec(),
            final(self).kinds@ == old(self).kinds@.push(kind),
            final(self).attrs@ == old(self).attrs@.push(attrs),
            final(self).parents@ == old(self).parents@.push(Some(parent)),
            final(self).children@.len() == old(self).children@.len() + 1,
            final(self).children@[parent as int]@ == old(self).children@[parent as int]@.push(r),
            final(self).children@[r as int]@.len() == 0,
            forall|j: int|
                0 <= j < old(self).len_spec() && j != parent ==> #[trigger] final(self).children@[j]
                    == old(self).children@[j],
    {
        let n = self.kinds.len();
        let ghost old_children = self.children@;
        self.kinds.push(kind);
        self.attrs.push(attrs);
        self.parents.push(Some(parent));
        self.children.push(Vec::new());
        let mut ch = Vec::new();
        std::mem::swap(&mut ch, &mut self.children[parent]);
        ch.push(n);
        self.children.set(parent, ch);
        assert forall|i: int, k: int|
            0 <= i < self.kinds@.len() && 0 <= k < self.children@[i]@.len() implies {
            let c = #[trigger] self.children@[i]@[k];
            0 < c < self.kinds@.len() && self.parents@[c as int] == Some(i as usize)
        } by {
            if i == parent as int {
                if k < old_children[i]@.len() {
                    assert(self.children@[i]@[k] == old_children[i]@[k]);
                }
            } else if i < n {
                assert(self.children@[i] == old_children[i]);
            }
        }
        assert forall|c: int| 0 < c < self.kinds@.len() implies self.children@[(
        #[trigger] self.parents@[c]).unwrap() as int]@.contains(c as usize) by {
            if c < n {
                let p = self.parents@[c].unwrap() as int;
                let j = choose|j: int| 0 <= j < old_children[p]@.len() && old_children[p]@[j] == c as usize;
                if p == parent as int {
                    assert(self.children@[p]@[j] == c as usize);
                } else {
                    assert(self.children@[p] == old_children[p]);
                }
            } else {
                assert(self.children@[parent as int]@.last() == n);
            }
        }
        n
    }

    /// The kind of node `i`.
    pub fn kind(&self, i: usize) -> (r: ElemKind)
        requires
            self.wf(),
            i < self.len_spec(),
        ensures
            r == self.kinds@[i as int],
    {
        self.kinds[i]
    }

    /// The attribute `key` of node `i`.
    pub fn get_attr(&self, i: usize, key: AttrId) -> (r: Option<AttrValue>)
        requires
            self.wf(),
            i < self.len_spec(),
        ensures
            r == self.attr(i as int, key),
    {
        self.attrs[i].get(key)
    }

    /// Gives the attribute `key` of node `i` the value `v`; nothing else
    /// changes.
    pub fn set_attr(&mut self, i: usize, key: AttrId, v: AttrValue)
        requires
            old(self).wf(),
            i < old(self).len_spec(),
        ensures
            final(self).wf(),
            final(self).kinds@ == old(self).kinds@,
            final(self).parents@ == old(self).parents@,
            final(self).children@ == old(self).children@,
            final(self).attrs@.len() == old(self).attrs@.len(),
            final(self).attr(i as int, key) == Some(v),
            forall|k: AttrId| k != key ==> final(self).attr(i as int, k) == old(self).attr(i as int, k),
            forall|j: int| 0 <= j < old(self).len_spec() && j != i ==> final(self).attrs@[j] == old(self).attrs@[j],
    {
        let mut a = self.attrs[i];
        a.set(key, v);
        self.attrs.set(i, a);
    }

    /// Removes the attribute `key` of node `i`; nothing else changes.
    pub fn remove_attr(&mut self, i: usize, key: AttrId)
        requires
            old(self).wf(),
            i < old(self).len_spec(),
        ensures
            final(self).wf(),
            final(self).kinds@ == old(self).kinds@,
            final(self).parents@ == old(self).parents@,
            final(self).children@ == old(self).children@,
            final(self).attrs@.len() == old(self).attrs@.len(),
            final(self).attr(i as int, key) is None,
            forall|k: AttrId| k != key ==> final(self).attr(i as int, k) == old(self).attr(i as int, k),
            forall|j: int| 0 <= j < old(self).len_spec() && j != i ==> final(self).attrs@[j] == old(self).attrs@[j],
    {
        let mut a = self.attrs[i];
        a.remove(key);
        self.attrs.set(i, a);
    }

    /// The children of node `i`, in order.
    pub fn children_of(&self, i: usize) -> (r: &Vec<usize>)
        requires
            self.wf(),
            i < self.len_spec(),
        ensures
            r@ == self.children@[i as int]@,
    {
        &self.children[i]
    }

    /// The parent of node `i`.
    pub fn parent_of(&self, i: usize) -> (r: Option<usize>)
        requires
            self.wf(),
            i < self.len_spec(),
        ensures
            r == self.parents@[i as int],
    {
        self.parents[i]
    }

    /// The first value of `key` on node `i` or its nearest ancestors, or
    /// `None` where none of them has it.
    pub fn find_attribute(&self, i: usize, key: AttrId) -> (r: Option<AttrValue>)
        requires
            self.wf(),
            i < self.len_spec(),
        ensures
            r == self@.lookup(i as int, key),
    {
        let mut j = i;
        while self.attrs[j].get(key).is_none()
            invariant
                self.wf(),
                j < self.len_spec(),
                self@.lookup(i as int, key) == self@.lookup(j as int, key),
            decreases j,
        {
            match self.parents[j] {
                Some(p) => {
                    j = p;
                },
                None => {
                    return None;
                },
            }
        }
        self.attrs[j].get(key)
    }
}

} // verus!
