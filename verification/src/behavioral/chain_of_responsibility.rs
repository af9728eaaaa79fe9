//! Chain of responsibility: a request travels down a chain of support
//! handlers until one recognises its keyword; a handler that cannot help
//! passes the request on.

use vstd::prelude::*;
use crate::textutil::contains_seq;
use crate::textutil::str_contains;

verus! {

/// The common plumbing of a handler: an optional next link.
pub struct BaseHandler {
    pub next: Option<Box<Support>>,
}

/// Basic support: handles requests naming its own level.
pub struct BasicSupport {
    pub base: BaseHandler,
}

/// Medium support: handles requests naming its own level.
pub struct MediumSupport {
    pub base: BaseHandler,
}

/// Advanced support: handles requests naming its own level.
pub struct AdvancedSupport {
    pub base: BaseHandler,
}

/// Any support handler, so a chain can be built by value.
pub enum Support {
    Basic(BasicSupport),
    Medium(MediumSupport),
    Advanced(AdvancedSupport),
}

/// Whether the chain hanging off `b` handles the request.
pub open spec fn base_handles(b: BaseHandler, request: Seq<char>) -> bool
    decreases b,
{
    match b.next {
        Some(n) => support_handles(*n, request),
        None => false,
    }
}

/// Whether the chain starting at `s` handles the request: the handler
/// itself when the request names its level, else whatever follows it.
pub open spec fn support_handles(s: Support, request: Seq<char>) -> bool
    decreases s,
{
    match s {
        Support::Basic(h) => contains_seq(request, "базовый"@) || base_handles(h.base, request),
        Support::Medium(h) => contains_seq(request, "средний"@) || base_handles(h.base, request),
        Support::Advanced(h) => contains_seq(request, "продвинутый"@) || base_handles(
            h.base,
            request,
        ),
    }
}

/// A handler: says whether the chain from here on handles a request.
pub trait Handler {
    /// What the chain from this handler on handles.
    spec fn spec_handles(&self, request: Seq<char>) -> bool;

    /// Handles the request or passes it on; reports whether any handler
    /// took it.
    fn handle(&self, request: &str) -> (r: bool)
        ensures
            r == self.spec_handles(request@),
    ;
}

impl BaseHandler {
    /// A handler with nothing after it.
    pub fn new() -> (h: BaseHandler)
        ensures
            h.next is None,
    {
        BaseHandler { next: None }
    }

    /// Hands the request to the next handler, if any.
    pub fn handle_next(&self, request: &str) -> (r: bool)
        ensures
            r == base_handles(*self, request@),
        decreases *self,
    {
        match &self.next {
            Some(n) => n.handle(request),
            None => false,
        }
    }

    /// Chains `next` after this handler.
    pub fn set_next(&mut self, next: Support)
        ensures
            final(self).next == Some(Box::new(next)),
    {
        self.next = Some(Box::new(next));
    }
}

impl Handler for BaseHandler {
    open spec fn spec_handles(&self, request: Seq<char>) -> bool {
        base_handles(*self, request)
    }

    fn handle(&self, request: &str) -> (r: bool) {
        self.handle_next(request)
    }
}

impl Handler for Support {
    open spec fn spec_handles(&self, request: Seq<char>) -> bool {
        support_handles(*self, request)
    }

    fn handle(&self, request: &str) -> (r: bool)
        decreases *self,
    {
        match self {
            Support::Basic(h) => h.handle(request),
            Support::Medium(h) => h.handle(request),
            Support::Advanced(h) => h.handle(request),
        }
    }
}

impl BasicSupport {
    pub fn new() -> (h: BasicSupport)
        ensures
            h.base.next is None,
    {
        BasicSupport { base: BaseHandler::new() }
    }

    /// Chains `next` after this handler.
    pub fn set_next(&mut self, next: Support)
        ensures
            final(self).base.next == Some(Box::new(next)),
    {
        self.base.set_next(next);
    }
}

impl Handler for BasicSupport {
    open spec fn spec_handles(&self, request: Seq<char>) -> bool {
        contains_seq(request, "базовый"@) || base_handles(self.base, request)
    }

    fn handle(&self, request: &str) -> (r: bool)
        decreases *self,
    {
        if str_contains(request, "базовый") {
            true
        } else {
            self.base.handle_next(request)
        }
    }
}

impl MediumSupport {
    pub fn new() -> (h: MediumSupport)
        ensures
            h.base.next is None,
    {
        MediumSupport { base: BaseHandler::new() }
    }

    /// Chains `next` after this handler.
    pub fn set_next(&mut self, next: Support)
        ensures
            final(self).base.next == Some(Box::new(next)),
    {
        self.base.set_next(next);
    }
}

impl Handler for MediumSupport {
    open spec fn spec_handles(&self, request: Seq<char>) -> bool {
        contains_seq(request, "средний"@) || base_handles(self.base, request)
    }

    fn handle(&self, request: &str) -> (r: bool)
        decreases *self,
    {
        if str_contains(request, "средний") {
            true
        } else {
            self.base.handle_next(request)
        }
    }
}

impl AdvancedSupport {
    pub fn new() -> (h: AdvancedSupport)
        ensures
            h.base.next is None,
    {
        AdvancedSupport { base: BaseHandler::new() }
    }

    /// Chains `next` after this handler.
    pub fn set_next(&mut self, next: Support)
        ensures
            final(self).base.next == Some(Box::new(next)),
    {
        self.base.set_next(next);
    }
}

impl Handler for AdvancedSupport {
    open spec fn spec_handles(&self, request: Seq<char>) -> bool {
        contains_seq(request, "продвинутый"@) || base_handles(self.base, request)
    }

    fn handle(&self, request: &str) -> (r: bool)
        decreases *self,
    {
        if str_contains(request, "продвинутый") {
            true
        } else {
            self.base.handle_next(request)
        }
    }
}

} // verus!
