use vstd::prelude::*;
use crate::error::FetchError;

verus! {

/// A lifecycle event of one call, for the state layer.
#[derive(Debug, Clone, PartialEq)]
pub enum FetchAction<D> {
    /// The call has started; its result is still to come.
    Fetching,
    /// The call ended with data.
    Success(D),
    /// The call ended with an error.
    Failure(FetchError),
}

/// An action addressed to the call that it belongs to.
#[derive(Debug, Clone, PartialEq)]
pub struct Delivery<D> {
    pub call: u64,
    pub action: FetchAction<D>,
}

/// Where a call stands: waiting for its result, or already answered.
#[derive(Debug, Clone, Copy, PartialEq, Eq, Structural)]
pub enum CallPhase {
    InFlight,
    Finished,
}

/// The dispatcher's record of one call. Calls share nothing: each has its
/// own record.
#[derive(Debug)]
pub struct Call {
    id: u64,
    phase: CallPhase,
}

/// The terminal action that a round trip's result gives.
pub open spec fn terminal_action<D>(result: Result<D, FetchError>) -> FetchAction<D> {
    match result {
        Ok(d) => FetchAction::Success(d),
        Err(e) => FetchAction::Failure(e),
    }
}

/// Whether an action ends a call.
pub open spec fn is_terminal<D>(a: FetchAction<D>) -> bool {
    !(a is Fetching)
}

/// The phase after a result arrives, and whether a terminal action goes out.
pub open spec fn finish_step(phase: CallPhase) -> (CallPhase, bool) {
    match phase {
        CallPhase::InFlight => (CallPhase::Finished, true),
        CallPhase::Finished => (CallPhase::Finished, false),
    }
}

/// How many terminal actions go out when `n` results arrive for a call in
/// `phase`, one after another.
pub open spec fn terminals_after(phase: CallPhase, n: nat) -> nat
    decreases n,
{
    if n == 0 {
        0
    } else {
        let (next, sent) = finish_step(phase);
        (if sent { 1nat } else { 0nat }) + terminals_after(next, (n - 1) as nat)
    }
}

impl Call {
    pub closed spec fn spec_id(&self) -> u64 {
        self.id
    }

    pub closed spec fn spec_phase(&self) -> CallPhase {
        self.phase
    }

    /// What goes out when `result` arrives for this call.
    pub open spec fn delivery_of<D>(&self, result: Result<D, FetchError>) -> Option<Delivery<D>> {
        if finish_step(self.spec_phase()).1 {
            Some(Delivery { call: self.spec_id(), action: terminal_action(result) })
        } else {
            None
        }
    }

    /// Starts the call `id`, giving its record and the `Fetching` action that
    /// a consumer may render before the result arrives.
    pub fn start<D>(id: u64) -> (r: (Call, Delivery<D>))
        ensures
            r.0.spec_id() == id,
            r.0.spec_phase() == CallPhase::InFlight,
            r.1 == (Delivery::<D> { call: id, action: FetchAction::Fetching }),
    {
        (Call { id, phase: CallPhase::InFlight }, Delivery { call: id, action: FetchAction::Fetching })
    }

    /// The call's identifier.
    pub fn id(&self) -> (r: u64)
        ensures
            r == self.spec_id(),
    {
        self.id
    }

    /// Whether the call's terminal action has gone out.
    pub fn is_finished(&self) -> (r: bool)
        ensures
            r == (self.spec_phase() == CallPhase::Finished),
    {
        match self.phase {
            CallPhase::InFlight => false,
            CallPhase::Finished => true,
        }
    }

    /// Hands the round trip's result to the call. The first result gives the
    /// call's one terminal action, addressed to it; any later one gives
    /// nothing.
    pub fn finish<D>(&mut self, result: Result<D, FetchError>) -> (r: Option<Delivery<D>>)
        ensures
            r == old(self).delivery_of(result),
            final(self).spec_id() == old(self).spec_id(),
            final(self).spec_phase() == finish_step(old(self).spec_phase()).0,
    {
        match self.phase {
            CallPhase::InFlight => {
                self.phase = CallPhase::Finished;
                let action = match result {
                    Ok(d) => FetchAction::Success(d),
                    Err(e) => FetchAction::Failure(e),
                };
                Some(Delivery { call: self.id, action })
            },
            CallPhase::Finished => None,
        }
    }
}

/// A started call answers exactly once: however many results arrive for it
/// (at least one), exactly one terminal action goes out; an answered call
/// sends no more.
pub proof fn lemma_exactly_one_terminal(n: nat)
    ensures
        n >= 1 ==> terminals_after(CallPhase::InFlight, n) == 1,
        terminals_after(CallPhase::Finished, n) == 0,
    decreases n,
{
    if n > 0 {
        lemma_exactly_one_terminal((n - 1) as nat);
    }
}

/// Deliveries never cross calls: the terminal action of a call carries that
/// call's identifier and its own result, so with distinct identifiers no
/// result reaches the other call.
pub proof fn lemma_delivery_to_own_call<D>(
    a: Call,
    b: Call,
    ra: Result<D, FetchError>,
    rb: Result<D, FetchError>,
)
    requires
        a.spec_id() != b.spec_id(),
        a.spec_phase() == CallPhase::InFlight,
        b.spec_phase() == CallPhase::InFlight,
    ensures
        a.delivery_of(ra) == Some(Delivery { call: a.spec_id(), action: terminal_action(ra) }),
        b.delivery_of(rb) == Some(Delivery { call: b.spec_id(), action: terminal_action(rb) }),
        a.delivery_of(ra)->Some_0.call != b.delivery_of(rb)->Some_0.call,
        is_terminal(terminal_action(ra)) && is_terminal(terminal_action(rb)),
{
}

} // verus!
