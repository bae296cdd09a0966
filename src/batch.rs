//! The batch builder: an ordered, append-only list of requests.
use vstd::prelude::*;

verus! {

/// One request of a batch: a method name, its parameters as JSON text, and
/// the position it was given when it was added.
#[derive(Debug, Clone, PartialEq, Eq)]
pub struct Request {
    pub method: String,
    pub params: Vec<String>,
    pub position: usize,
}

/// An ordered group of requests sent as one round trip. Positions run from
/// `0` to `len() - 1` in insertion order.
pub struct Batch {
    requests: Vec<Request>,
}

impl View for Batch {
    type V = Seq<Request>;

    closed spec fn view(&self) -> Seq<Request> {
        self.requests@
    }
}

impl Batch {
    /// Each request stands at the position it carries.
    pub open spec fn wf(&self) -> bool {
        forall|i: int| 0 <= i < self@.len() ==> (#[trigger] self@[i]).position == i
    }

    /// An empty batch.
    pub fn new() -> (b: Batch)
        ensures
            b.wf(),
            b@.len() == 0,
    {
        Batch { requests: Vec::new() }
    }

    /// Appends a request and returns the position assigned to it. Building
    /// never fails and performs no validation of the parameters.
    pub fn add(&mut self, method: String, params: Vec<String>) -> (position: usize)
        requires
            old(self).wf(),
            old(self)@.len() < usize::MAX,
        ensures
            final(self).wf(),
            position == old(self)@.len(),
            final(self)@ == old(self)@.push((Request { method, params, position })),
    {
        let position = self.requests.len();
        self.requests.push(Request { method, params, position });
        position
    }

    /// The number of requests in the batch.
    pub fn len(&self) -> (n: usize)
        ensures
            n == self@.len(),
    {
        self.requests.len()
    }

    /// The request at `position`.
    pub fn request(&self, position: usize) -> (r: &Request)
        requires
            position < self@.len(),
        ensures
            *r == self@[position as int],
    {
        &self.requests[position]
    }
}

} // verus!
