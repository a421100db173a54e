//! Properties that hold across the operations of handlers and the slot.
use vstd::prelude::*;

use crate::fault::{FaultInfo, Hook, MessageHook};
use crate::handler::{registered, PanicHandler};
use crate::sink::Sink;
use crate::slot::{faulted, released, reported_to, DispatchSlot, SlotState};

verus! {

/// A handler built on sink `w` reads and writes as `w` does: it holds the
/// same text, keeps the same part of any text written to it, and writing
/// `s` to the handler leaves it with the text that writing `s` to `w` gives.
pub proof fn lemma_handler_passes_through<W: Sink, F: Hook<W>>(
    h0: PanicHandler<W, F>,
    h1: PanicHandler<W, F>,
    w0: W,
    w1: W,
    s: Seq<char>,
)
    requires
        h0.inner() == w0,
        h1.text() == h0.text() + h0.kept(s),
        w1.text() == w0.text() + w0.kept(s),
    ensures
        h0.text() == w0.text(),
        h0.kept(s) == w0.kept(s),
        h1.text() == w1.text(),
{
}

/// While `a` is registered, another handler `b` registers: then only `b` is
/// reachable from the slot. A fault with `a` as candidate reports nothing
/// and leaves it untouched, and a fault with `b` reports through `b`'s hook.
pub proof fn lemma_latest_registration_wins<W1: Sink, F1: Hook<W1>, W2: Sink, F2: Hook<W2>>(
    a1: PanicHandler<W1, F1>,
    b0: PanicHandler<W2, F2>,
    b1: PanicHandler<W2, F2>,
    s1: DispatchSlot,
    s2: DispatchSlot,
    info: FaultInfo,
    fa: DispatchSlot,
    a2: PanicHandler<W1, F1>,
    ra: bool,
    fb: DispatchSlot,
    b2: PanicHandler<W2, F2>,
    rb: bool,
)
    requires
        s1.wf(),
        a1.is_registered_in(s1),
        registered(b0, s1, b1, s2),
        faulted(s2, a1, info, fa, a2, ra),
        faulted(s2, b1, info, fb, b2, rb),
    ensures
        b1.is_registered_in(s2),
        !a1.is_registered_in(s2),
        !ra,
        a2 == a1,
        rb,
        reported_to(b1, b2, info),
{
}

/// Once a registered handler is detached or destroyed, the slot is empty,
/// and a later fault reports through no handler at all.
pub proof fn lemma_release_empties_slot<W: Sink, F: Hook<W>, V: Sink, G: Hook<V>>(
    h1: PanicHandler<W, F>,
    s1: DispatchSlot,
    s2: DispatchSlot,
    g0: PanicHandler<V, G>,
    info: FaultInfo,
    s3: DispatchSlot,
    g1: PanicHandler<V, G>,
    reported: bool,
)
    requires
        h1.is_registered_in(s1),
        released(h1.registration(), s1, s2),
        faulted(s2, g0, info, s3, g1, reported),
    ensures
        s2.state() == SlotState::Empty,
        !reported,
        g1 == g0,
{
}

/// Registering a fresh handler built on `w` and detaching it again hands
/// back `w` itself and leaves the slot empty.
pub proof fn lemma_register_detach_round_trip<W: Sink, F: Hook<W>>(
    w: W,
    h0: PanicHandler<W, F>,
    h1: PanicHandler<W, F>,
    s0: DispatchSlot,
    s1: DispatchSlot,
    s2: DispatchSlot,
    back: W,
)
    requires
        h0.inner() == w,
        registered(h0, s0, h1, s1),
        back == h1.inner(),
        released(h1.registration(), s1, s2),
    ensures
        back == w,
        back.text() == w.text(),
        s2.state() == SlotState::Empty,
{
}

/// While no handler is registered, a fault reports through none: whatever
/// handler is at hand is left untouched.
pub proof fn lemma_no_registration_no_report<W: Sink, F: Hook<W>>(
    s0: DispatchSlot,
    h0: PanicHandler<W, F>,
    info: FaultInfo,
    s1: DispatchSlot,
    h1: PanicHandler<W, F>,
    reported: bool,
)
    requires
        s0.state() == SlotState::Empty || h0.registration() == None::<u64>,
        faulted(s0, h0, info, s1, h1, reported),
    ensures
        !reported,
        h1 == h0,
        h1.text() == h0.text(),
        s1.is_halted(),
{
}

/// A handler whose hook is a message hook reports the same text for every
/// fault: two faults that differ only in their metadata leave its sink with
/// the same content, the hook's message after what the sink held.
pub proof fn lemma_message_hook_ignores_metadata<W: Sink>(
    h0: PanicHandler<W, MessageHook>,
    s0: DispatchSlot,
    i1: FaultInfo,
    s1: DispatchSlot,
    h1: PanicHandler<W, MessageHook>,
    r1: bool,
    i2: FaultInfo,
    s2: DispatchSlot,
    h2: PanicHandler<W, MessageHook>,
    r2: bool,
)
    requires
        h0.is_registered_in(s0),
        faulted(s0, h0, i1, s1, h1, r1),
        faulted(s0, h0, i2, s2, h2, r2),
    ensures
        r1 && r2,
        h1.text() == h2.text(),
        h1.text() == h0.text() + h0.inner().kept(h0.hook().message()),
{
}

} // verus!
