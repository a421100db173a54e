//! The process-wide dispatch slot and the fixed fault entry point.
use vstd::prelude::*;

use crate::fault::{FaultInfo, Hook};
use crate::handler::{trampoline, PanicHandler};
use crate::sink::Sink;

verus! {

/// Where the slot stands in its lifecycle.
#[derive(Clone, Copy, PartialEq, Eq, Structural, Debug)]
pub enum SlotState {
    /// No handler is registered.
    Empty,
    /// The handler that holds this registration token is registered.
    Registered(u64),
    /// The fault entry point has run; nothing follows.
    Halted,
}

/// The single slot that the fault entry point reads.
///
/// It never owns a handler: it holds the token of the registered one, and a
/// handler recognises itself by that token. Each registration takes a fresh
/// token, so a handler registered earlier never matches a later entry.
///
/// The process has one such slot, and a handler is meant for the slot it
/// registered in: tokens are fresh within a slot, not across slots.
pub struct DispatchSlot {
    state: SlotState,
    next: u64,
}

impl DispatchSlot {
    /// The slot as it stands at process start: empty.
    pub fn new() -> (r: DispatchSlot)
        ensures
            r.state() == SlotState::Empty,
            r.next_token() == 0,
            r.wf(),
    {
        DispatchSlot { state: SlotState::Empty, next: 0 }
    }

    /// The slot's lifecycle state.
    pub closed spec fn state(&self) -> SlotState {
        self.state
    }

    /// The token that the next registration receives.
    pub closed spec fn next_token(&self) -> nat {
        self.next as nat
    }

    /// A registered token is one that this slot has already issued, and the
    /// next token is a `u64`.
    pub open spec fn wf(&self) -> bool {
        &&& self.next_token() <= u64::MAX
        &&& match self.state() {
            SlotState::Registered(t) => t < self.next_token(),
            _ => true,
        }
    }

    /// Whether the fault entry point has run.
    pub open spec fn is_halted(&self) -> bool {
        self.state() == SlotState::Halted
    }

    /// Whether another registration can be issued a fresh token.
    pub open spec fn can_register(&self) -> bool {
        &&& !self.is_halted()
        &&& self.next_token() < u64::MAX
    }

    /// The slot's lifecycle state.
    pub fn current(&self) -> (r: SlotState)
        ensures
            r == self.state(),
    {
        self.state
    }

    /// Whether another registration can be issued a fresh token.
    pub fn accepts_registration(&self) -> (r: bool)
        ensures
            r == self.can_register(),
    {
        self.state != SlotState::Halted && self.next < u64::MAX
    }

    /// Issues a fresh token and makes it the registered entry, replacing any
    /// earlier one.
    pub(crate) fn publish(&mut self) -> (token: u64)
        requires
            old(self).can_register(),
        ensures
            token == old(self).next_token(),
            final(self).state() == SlotState::Registered(token),
            final(self).next_token() == old(self).next_token() + 1,
            final(self).wf(),
    {
        let token = self.next;
        self.state = SlotState::Registered(token);
        self.next = self.next + 1;
        token
    }

    /// Clears the entry if it holds `token`; otherwise leaves the slot as it is.
    pub(crate) fn withdraw(&mut self, token: Option<u64>)
        ensures
            final(self).state() == withdrawn(old(self).state(), token),
            final(self).next_token() == old(self).next_token(),
            old(self).wf() ==> final(self).wf(),
    {
        match (self.state, token) {
            (SlotState::Registered(t), Some(u)) => {
                if t == u {
                    self.state = SlotState::Empty;
                }
            },
            _ => {},
        }
    }

    /// The fixed fault entry point: if `handler` is the registered one, runs
    /// its hook on its sink through the trampoline; then the slot halts.
    /// Returns whether a report was made.
    pub fn fault<W: Sink, F: Hook<W>>(
        &mut self,
        handler: &mut PanicHandler<W, F>,
        info: &FaultInfo,
    ) -> (reported: bool)
        requires
            !old(self).is_halted(),
        ensures
            faulted(*old(self), *old(handler), *info, *final(self), *final(handler), reported),
    {
        let reported = handler.is_registered(self);
        if reported {
            trampoline(handler, info);
        }
        self.state = SlotState::Halted;
        reported
    }
}

/// The slot state after withdrawing the registration `token` from `state`.
pub open spec fn withdrawn(state: SlotState, token: Option<u64>) -> SlotState {
    match (state, token) {
        (SlotState::Registered(t), Some(u)) => if t == u {
            SlotState::Empty
        } else {
            state
        },
        _ => state,
    }
}

/// `s1` and `h1` are `s0` and `h0` after the fault entry point ran on `s0`
/// with candidate `h0` and metadata `info`: the slot halts, and `h0` reports,
/// exactly when it is the registered handler; otherwise it is untouched.
pub open spec fn faulted<W: Sink, F: Hook<W>>(
    s0: DispatchSlot,
    h0: PanicHandler<W, F>,
    info: FaultInfo,
    s1: DispatchSlot,
    h1: PanicHandler<W, F>,
    reported: bool,
) -> bool {
    &&& s1.is_halted()
    &&& s1.wf()
    &&& s1.next_token() == s0.next_token()
    &&& reported == h0.is_registered_in(s0)
    &&& reported ==> reported_to(h0, h1, info)
    &&& !reported ==> h1 == h0
}

/// `s1` is `s0` after the handler holding `token` let go of it: the entry is
/// cleared if it is that handler's, and left as it is otherwise.
pub open spec fn released(token: Option<u64>, s0: DispatchSlot, s1: DispatchSlot) -> bool {
    &&& s1.state() == withdrawn(s0.state(), token)
    &&& s1.next_token() == s0.next_token()
    &&& s0.wf() ==> s1.wf()
}

/// `after` is `before` once its hook has reported `info` to its sink: the
/// sink has gained the hook's report, as far as the sink keeps it, and the
/// registration is unchanged.
pub open spec fn reported_to<W: Sink, F: Hook<W>>(
    before: PanicHandler<W, F>,
    after: PanicHandler<W, F>,
    info: FaultInfo,
) -> bool {
    &&& after.text() == before.text() + before.inner().kept(before.hook().report(info))
    &&& after.registration() == before.registration()
}

} // verus!
