//! The cursor into a value tree at which a violation was found: a sequence
//! of struct-field and sequence-index steps.

use vstd::prelude::*;

verus! {

/// One step of descent into an Ion value.
#[derive(Debug, Clone)]
pub enum IonPathElement {
    /// Descent into a struct at the field with this name.
    Field(String),
    /// Descent into a list or S-expression at this position.
    Index(usize),
}

/// An ordered path from the root of the validated value to the value a
/// violation speaks about.
#[derive(Debug, Clone)]
pub struct IonPath {
    elements: Vec<IonPathElement>,
}

impl IonPath {
    pub closed spec fn spec_elements(&self) -> Seq<IonPathElement> {
        self.elements@
    }

    /// The path that points at the root value itself.
    pub fn new() -> (r: IonPath)
        ensures
            r.spec_elements().len() == 0,
    {
        IonPath { elements: Vec::new() }
    }

    /// Extends the path by one step of descent.
    pub fn push(&mut self, element: IonPathElement)
        ensures
            final(self).spec_elements() == old(self).spec_elements().push(element),
    {
        self.elements.push(element);
    }

    /// Removes the innermost step, if any.
    pub fn pop(&mut self) -> (r: Option<IonPathElement>)
        ensures
            old(self).spec_elements().len() == 0 ==> r is None && final(self).spec_elements()
                == old(self).spec_elements(),
            old(self).spec_elements().len() > 0 ==> r == Some(
                old(self).spec_elements().last(),
            ) && final(self).spec_elements() == old(self).spec_elements().drop_last(),
    {
        self.elements.pop()
    }

    pub fn len(&self) -> (r: usize)
        ensures
            r == self.spec_elements().len(),
    {
        self.elements.len()
    }

    /// The steps of the path, outermost first.
    pub fn elements(&self) -> (r: &Vec<IonPathElement>)
        ensures
            r@ == self.spec_elements(),
    {
        &self.elements
    }
}

} // verus!
