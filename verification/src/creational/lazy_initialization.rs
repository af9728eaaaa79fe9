//! Lazy initialization: an expensive value is produced on first use and
//! cached for every later one.

use vstd::prelude::*;

verus! {

/// Holds an expensive value, produced only when first asked for.
pub struct LazyExample {
    expensive_data: Option<String>,
}

impl LazyExample {
    /// Whether the value has been produced yet.
    pub closed spec fn initialized(self) -> bool {
        self.expensive_data is Some
    }

    /// Whatever is cached is the expensive value.
    pub closed spec fn wf(self) -> bool {
        self.expensive_data matches Some(s) ==> s@ == "Дорогие данные"@
    }

    /// A holder with nothing produced yet.
    pub fn new() -> (lazy: LazyExample)
        ensures
            !lazy.initialized(),
            lazy.wf(),
    {
        LazyExample { expensive_data: None }
    }

    /// The expensive value: produced on the first call, cached from
    /// then on.
    pub fn get_expensive_data(&mut self) -> (r: String)
        requires
            old(self).wf(),
        ensures
            r@ == "Дорогие данные"@,
            final(self).initialized(),
            final(self).wf(),
            old(self).initialized() ==> *final(self) == *old(self),
    {
        match &self.expensive_data {
            Some(s) => s.clone(),
            None => {
                let value = "Дорогие данные".to_owned();
                self.expensive_data = Some(value.clone());
                value
            },
        }
    }
}

} // verus!
