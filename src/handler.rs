//! The handler object: a sink and a reporting hook, registrable in the slot.
use vstd::prelude::*;

use crate::fault::{DefaultHook, FaultInfo, Hook};
use crate::sink::Sink;
use crate::slot::{released, DispatchSlot, SlotState};

verus! {

/// An owned bundle of an output sink and the hook that reports a fault to it.
///
/// The handler passes reads and writes through to its sink, so it can serve
/// as the application's general output sink. Moving it is harmless: the slot
/// holds its registration token, not its address.
///
/// Its teardown is [`PanicHandler::destroy`] (or [`PanicHandler::detach`]),
/// which clears the slot if the slot points at it. Dropping it without
/// either leaves the slot showing a token that no live handler holds: no
/// fault reports through it, but the entry stays until the next registration.
pub struct PanicHandler<W: Sink, F: Hook<W>> {
    writer: W,
    hook: F,
    registration: Option<u64>,
}

impl<W: Sink, F: Hook<W>> PanicHandler<W, F> {
    /// The sink.
    pub closed spec fn inner(&self) -> W {
        self.writer
    }

    /// The reporting hook.
    pub closed spec fn hook(&self) -> F {
        self.hook
    }

    /// The token of this handler's latest registration, if it was ever
    /// registered.
    pub closed spec fn registration(&self) -> Option<u64> {
        self.registration
    }

    /// Whether `slot` currently points at this handler.
    pub open spec fn is_registered_in(&self, slot: DispatchSlot) -> bool {
        match self.registration() {
            Some(t) => slot.state() == SlotState::Registered(t),
            None => false,
        }
    }

    /// A handler with sink `writer` and hook `hook`, not yet registered.
    pub fn new_with_hook(writer: W, hook: F) -> (r: Self)
        ensures
            r.inner() == writer,
            r.hook() == hook,
            r.registration() == None::<u64>,
    {
        PanicHandler { writer, hook, registration: None }
    }

    /// Makes this handler the one the fault entry point reports through,
    /// replacing any handler registered before. Registering the handler that
    /// is already registered changes nothing.
    pub fn register(&mut self, slot: &mut DispatchSlot)
        requires
            old(self).is_registered_in(*old(slot)) || old(slot).can_register(),
        ensures
            old(self).is_registered_in(*old(slot)) ==> *final(self) == *old(self) && *final(slot)
                == *old(slot),
            !old(self).is_registered_in(*old(slot)) ==> registered(
                *old(self),
                *old(slot),
                *final(self),
                *final(slot),
            ),
            final(self).is_registered_in(*final(slot)),
    {
        if self.is_registered(slot) {
            return;
        }
        let token = slot.publish();
        self.registration = Some(token);
    }

    /// Whether `slot` currently points at this handler.
    pub fn is_registered(&self, slot: &DispatchSlot) -> (r: bool)
        ensures
            r == self.is_registered_in(*slot),
    {
        match self.registration {
            Some(t) => slot.current() == SlotState::Registered(t),
            None => false,
        }
    }

    /// Clears the slot if it points at this handler and hands the sink back.
    /// Safe whether or not the handler is registered.
    pub fn detach(self, slot: &mut DispatchSlot) -> (r: W)
        ensures
            r == self.inner(),
            released(self.registration(), *old(slot), *final(slot)),
    {
        slot.withdraw(self.registration);
        self.writer
    }

    /// Releases the handler and its sink, clearing the slot first if it
    /// points at this handler.
    pub fn destroy(self, slot: &mut DispatchSlot)
        ensures
            released(self.registration(), *old(slot), *final(slot)),
    {
        slot.withdraw(self.registration);
    }

    /// Read access to the sink.
    pub fn get_ref(&self) -> (r: &W)
        ensures
            *r == self.inner(),
    {
        &self.writer
    }

    /// Write access to the sink; the hook and the registration stay as they
    /// are.
    pub fn get_inner(&mut self) -> (r: &mut W)
        ensures
            *r == old(self).inner(),
            final(self).inner() == *final(r),
            final(self).hook() == old(self).hook(),
            final(self).registration() == old(self).registration(),
    {
        &mut self.writer
    }
}

impl<W: Sink> PanicHandler<W, DefaultHook> {
    /// A handler with sink `writer` and the default hook, which writes the
    /// fault's textual representation verbatim.
    pub fn new(writer: W) -> (r: Self)
        ensures
            r.inner() == writer,
            r.registration() == None::<u64>,
    {
        PanicHandler::new_with_hook(writer, DefaultHook)
    }
}

impl<W: Sink, F: Hook<W>> Sink for PanicHandler<W, F> {
    open spec fn text(&self) -> Seq<char> {
        self.inner().text()
    }

    open spec fn kept(&self, s: Seq<char>) -> Seq<char> {
        self.inner().kept(s)
    }

    fn write_str(&mut self, s: &str)
        ensures
            final(self).hook() == old(self).hook(),
            final(self).registration() == old(self).registration(),
    {
        self.writer.write_str(s);
    }
}

/// `h1` and `s1` are `h0` and `s0` after `h0` registered in `s0`: both hold
/// the slot's next token, which is then used up, and the sink and the hook
/// are untouched.
pub open spec fn registered<W: Sink, F: Hook<W>>(
    h0: PanicHandler<W, F>,
    s0: DispatchSlot,
    h1: PanicHandler<W, F>,
    s1: DispatchSlot,
) -> bool {
    &&& h1.registration() == Some(s0.next_token() as u64)
    &&& s1.state() == SlotState::Registered(s0.next_token() as u64)
    &&& s1.next_token() == s0.next_token() + 1
    &&& s1.wf()
    &&& h1.inner() == h0.inner()
    &&& h1.hook() == h0.hook()
}

/// Runs `handler`'s hook on its own sink for the fault `info`.
pub(crate) fn trampoline<W: Sink, F: Hook<W>>(handler: &mut PanicHandler<W, F>, info: &FaultInfo)
    ensures
        final(handler).text() == old(handler).text() + old(handler).inner().kept(
            old(handler).hook().report(*info),
        ),
        final(handler).registration() == old(handler).registration(),
{
    handler.hook.on_fault(&mut handler.writer, info);
}

} // verus!
