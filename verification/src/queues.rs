use vstd::prelude::*;

use crate::wire::{BitcoinAdapterResponseWrapper, GetSuccessorsRequest, GetSuccessorsRequestView,
    ResponseWrapperView};

verus! {

broadcast use Seq::lemma_push_map_commute;

/// A request was already outstanding; the push changed nothing.
#[derive(Debug, PartialEq, Eq, Clone)]
pub struct QueueFull;

/// The bounded request/response channel to the external fetcher: at most one
/// outstanding request, and received responses delivered first in, first out.
pub struct AdapterQueues {
    pub in_flight: Option<GetSuccessorsRequest>,
    pub responses: Vec<BitcoinAdapterResponseWrapper>,
}

#[verifier::ext_equal]
pub struct AdapterQueuesView {
    pub in_flight: Option<GetSuccessorsRequestView>,
    pub responses: Seq<ResponseWrapperView>,
}

impl View for AdapterQueues {
    type V = AdapterQueuesView;

    open spec fn view(&self) -> AdapterQueuesView {
        AdapterQueuesView {
            in_flight: match self.in_flight {
                Some(r) => Some(r@),
                None => None,
            },
            responses: self.responses@.map_values(|r: BitcoinAdapterResponseWrapper| r@),
        }
    }
}

impl AdapterQueues {
    /// Builds an empty channel.
    pub fn new() -> (r: AdapterQueues)
        ensures
            r@.in_flight is None,
            r@.responses == Seq::<ResponseWrapperView>::empty(),
    {
        let r = AdapterQueues { in_flight: None, responses: Vec::new() };
        proof {
            assert(r@.responses =~= Seq::<ResponseWrapperView>::empty());
        }
        r
    }

    /// Whether a fetch request is outstanding.
    pub fn has_in_flight_get_successors_requests(&self) -> (r: bool)
        ensures
            r == (self@.in_flight is Some),
    {
        self.in_flight.is_some()
    }

    /// How many requests are outstanding: zero or one.
    pub fn num_requests(&self) -> (r: usize)
        ensures
            r == 0 <==> self@.in_flight is None,
            r == 1 <==> self@.in_flight is Some,
    {
        if self.in_flight.is_some() {
            1
        } else {
            0
        }
    }

    /// How many responses wait to be processed.
    pub fn num_responses(&self) -> (r: usize)
        ensures
            r == self@.responses.len(),
    {
        self.responses.len()
    }

    /// Records a new outstanding request, failing without mutation if one is
    /// outstanding already.
    pub fn push_request(&mut self, request: GetSuccessorsRequest) -> (r: Result<(), QueueFull>)
        ensures
            r is Ok <==> old(self)@.in_flight is None,
            r is Ok ==> final(self)@ == (AdapterQueuesView {
                in_flight: Some(request@),
                responses: old(self)@.responses,
            }),
            r is Err ==> final(self)@ == old(self)@,
    {
        if self.in_flight.is_some() {
            Err(QueueFull)
        } else {
            self.in_flight = Some(request);
            Ok(())
        }
    }

    /// Delivery of a response from the external fetcher: the outstanding
    /// request (if any) is answered by it, so the request slot clears, and the
    /// response joins the back of the queue.
    pub fn push_response(&mut self, response: BitcoinAdapterResponseWrapper)
        ensures
            final(self)@.in_flight is None,
            final(self)@.responses == old(self)@.responses.push(response@),
    {
        self.in_flight = None;
        self.responses.push(response);
    }

    /// Removes and returns the oldest unprocessed response.
    pub fn pop_response(&mut self) -> (r: Option<BitcoinAdapterResponseWrapper>)
        ensures
            final(self)@.in_flight == old(self)@.in_flight,
            match r {
                Some(resp) => old(self)@.responses.len() > 0 && resp@ == old(self)@.responses[0]
                    && final(self)@.responses == old(self)@.responses.drop_first(),
                None => old(self)@.responses.len() == 0 && final(self)@ == old(self)@,
            },
    {
        if self.responses.len() == 0 {
            None
        } else {
            let ghost old_view = self@.responses;
            let r = self.responses.remove(0);
            proof {
                assert(self@.responses =~= old_view.drop_first());
            }
            Some(r)
        }
    }
}

} // verus!
