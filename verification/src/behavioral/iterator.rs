//! Iteration over a collection without exposing its structure: a list of
//! names walked by an explicit cursor.

use vstd::prelude::*;

verus! {

/// The aggregate: a list of names.
pub struct Names {
    pub names: Vec<String>,
}

impl Names {
    pub fn new(names: Vec<String>) -> (r: Names)
        ensures
            r.names == names,
    {
        Names { names }
    }

    /// A cursor over this list, starting at the first name.
    pub fn create_iterator(&self) -> (it: NamesIterator)
        ensures
            it.names == &self.names,
            it.index == 0,
    {
        NamesIterator { names: &self.names, index: 0 }
    }
}

/// A cursor over a list of names.
pub struct NamesIterator<'a> {
    pub names: &'a Vec<String>,
    pub index: usize,
}

impl<'a> NamesIterator<'a> {
    /// Whether a name remains to be visited.
    pub fn has_next(&self) -> (r: bool)
        ensures
            r == (self.index < self.names.len()),
    {
        self.index < self.names.len()
    }

    /// The next name, advancing the cursor; `None` once all names are
    /// spent.
    pub fn next(&mut self) -> (r: Option<String>)
        ensures
            final(self).names == old(self).names,
            old(self).index < old(self).names.len() ==> (r matches Some(name) && name@ == old(
                self,
            ).names@[old(self).index as int]@ && final(self).index == old(self).index + 1),
            old(self).index >= old(self).names.len() ==> r is None && final(self).index == old(
                self,
            ).index,
    {
        if self.index < self.names.len() {
            let name = self.names[self.index].clone();
            self.index = self.index + 1;
            Some(name)
        } else {
            None
        }
    }
}

} // verus!
