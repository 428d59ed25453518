//! Paths that describe where a lens points inside its source.

use crate::text::{joined_ids, path_text, push_decimal};
use vstd::string::*;
use vstd::prelude::*;

verus! {

/// An element in a `LensPath`.
#[derive(PartialEq, Eq, Structural, PartialOrd, Ord, Debug, Clone, Copy)]
pub struct LensPathElement {
    id: u64,
}

impl View for LensPathElement {
    type V = u64;

    closed spec fn view(&self) -> u64 {
        self.id
    }
}

impl LensPathElement {
    /// Creates an element with the given identifier.
    pub fn new(id: u64) -> (element: LensPathElement)
        ensures
            element@ == id,
    {
        LensPathElement { id }
    }

    /// Two elements are equal exactly when their identifiers are; `==` on elements
    /// compares them so.
    pub proof fn lemma_equal_iff_same_id(a: LensPathElement, b: LensPathElement)
        ensures
            (a == b) <==> (a@ == b@),
    {
    }
}

/// Describes a lens relative to a source data structure.
#[derive(PartialEq, Eq, PartialOrd, Ord, Clone)]
pub struct LensPath {
    /// The path elements.
    pub elements: Vec<LensPathElement>,
}

impl View for LensPath {
    type V = Seq<u64>;

    /// The identifiers of the elements, in order.
    open spec fn view(&self) -> Seq<u64> {
        element_ids(self.elements@)
    }
}

/// The identifiers of a sequence of path elements, in order.
pub open spec fn element_ids(elements: Seq<LensPathElement>) -> Seq<u64> {
    Seq::new(elements.len(), |k: int| elements[k]@)
}

impl LensPath {
    /// Creates a new `LensPath` with no elements.
    pub fn empty() -> (path: LensPath)
        ensures
            path@ == Seq::<u64>::empty(),
    {
        let path = LensPath { elements: Vec::new() };
        assert(path@ =~= Seq::<u64>::empty());
        path
    }

    /// Creates a new `LensPath` with a single element.
    pub fn new(id: u64) -> (path: LensPath)
        ensures
            path@ == seq![id],
    {
        let mut elements = Vec::new();
        elements.push(LensPathElement::new(id));
        let path = LensPath { elements };
        assert(path@ =~= seq![id]);
        path
    }

    /// Creates a new `LensPath` with a single index (for an indexed type such as `Vec`).
    pub fn from_index(index: usize) -> (path: LensPath)
        ensures
            path@ == seq![index as u64],
    {
        LensPath::new(index as u64)
    }

    /// Creates a new `LensPath` with two elements.
    pub fn from_pair(id0: u64, id1: u64) -> (path: LensPath)
        ensures
            path@ == seq![id0, id1],
    {
        let mut elements = Vec::new();
        elements.push(LensPathElement::new(id0));
        elements.push(LensPathElement::new(id1));
        let path = LensPath { elements };
        assert(path@ =~= seq![id0, id1]);
        path
    }

    /// Creates a new `LensPath` from a vector of element identifiers.
    pub fn from_vec(ids: Vec<u64>) -> (path: LensPath)
        ensures
            path@ == ids@,
    {
        let mut elements: Vec<LensPathElement> = Vec::new();
        let mut i: usize = 0;
        while i < ids.len()
            invariant
                i <= ids.len(),
                elements.len() == i,
                element_ids(elements@) =~= ids@.take(i as int),
            decreases ids.len() - i,
        {
            let ghost before = elements@;
            elements.push(LensPathElement::new(ids[i]));
            assert forall|k: int| 0 <= k < i implies #[trigger] elements@[k]@ == ids@[k] by {
                assert(element_ids(before)[k] == ids@.take(i as int)[k]);
            }
            i = i + 1;
            assert(element_ids(elements@) =~= ids@.take(i as int));
        }
        assert(ids@.take(i as int) =~= ids@);
        LensPath { elements }
    }

    /// Creates a new `LensPath` that is the concatenation of the two paths.
    pub fn concat(lhs: LensPath, rhs: LensPath) -> (path: LensPath)
        ensures
            path@ == lhs@ + rhs@,
    {
        let mut elements = lhs.elements;
        let mut tail = rhs.elements;
        elements.append(&mut tail);
        let path = LensPath { elements };
        assert(path@ =~= lhs@ + rhs@);
        path
    }

    /// Renders the path as its identifiers in decimal, separated by `", "`, between
    /// square brackets (`[1, 2, 3]`); this is the text the path shows when debugged.
    pub fn debug_string(&self) -> (text: String)
        ensures
            text@ == path_text(self@),
    {
        let mut text = String::new();
        text.append("[");
        proof {
            reveal_strlit("[");
        }
        assert(text@ =~= seq!['[']);
        let n = self.elements.len();
        let mut i: usize = 0;
        while i < n
            invariant
                n == self.elements.len(),
                i <= n,
                text@ == seq!['['] + joined_ids(self@.take(i as int)),
            decreases n - i,
        {
            let ghost before = text@;
            if i > 0 {
                text.append(", ");
                proof {
                    reveal_strlit(", ");
                }
            }
            push_decimal(&mut text, self.elements[i].id);
            assert(self@.take(i + 1).drop_last() =~= self@.take(i as int));
            assert(self@.take(i + 1).last() == self.elements@[i as int].id);
            i = i + 1;
            assert(text@ =~= seq!['['] + joined_ids(self@.take(i as int)));
        }
        text.append("]");
        proof {
            reveal_strlit("]");
        }
        assert(text@ =~= path_text(self@.take(n as int)));
        assert(self@.take(n as int) =~= self@);
        text
    }
}

} // verus!
