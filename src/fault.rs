//! Fault metadata and the hooks that report it.
use vstd::prelude::*;

use crate::sink::Sink;

verus! {

/// What the execution environment hands over when a fault occurs: its
/// textual representation (message and source location). Read only.
pub struct FaultInfo {
    text: String,
}

impl FaultInfo {
    /// Fault metadata whose textual representation is `text`.
    pub fn new(text: &str) -> (r: FaultInfo)
        ensures
            r.text() == text@,
    {
        FaultInfo { text: text.to_owned() }
    }

    /// The textual representation of the fault.
    pub closed spec fn text(&self) -> Seq<char> {
        self.text@
    }

    /// The textual representation of the fault.
    pub fn as_str(&self) -> (r: &str)
        ensures
            r@ == self.text(),
    {
        self.text.as_str()
    }
}

/// The reporting logic of a handler: run at most once, from fault context,
/// with the handler's sink and the fault metadata.
pub trait Hook<W: Sink>: Sized {
    /// The text this hook writes to its sink for the fault `info`.
    spec fn report(&self, info: FaultInfo) -> Seq<char>;

    /// Writes the report for `info` to `out`.
    fn on_fault(&mut self, out: &mut W, info: &FaultInfo)
        ensures
            final(out).text() == old(out).text() + old(out).kept(old(self).report(*info)),
    ;
}

/// The default reporting logic: writes the fault's textual representation
/// verbatim.
pub struct DefaultHook;

impl<W: Sink> Hook<W> for DefaultHook {
    open spec fn report(&self, info: FaultInfo) -> Seq<char> {
        info.text()
    }

    fn on_fault(&mut self, out: &mut W, info: &FaultInfo) {
        out.write_str(info.as_str());
    }
}

/// Reporting logic that writes one fixed message, whatever the fault.
pub struct MessageHook {
    message: String,
}

impl MessageHook {
    /// A hook that reports `message` for every fault.
    pub fn new(message: &str) -> (r: MessageHook)
        ensures
            r.message() == message@,
    {
        MessageHook { message: message.to_owned() }
    }

    /// The message this hook reports.
    pub closed spec fn message(&self) -> Seq<char> {
        self.message@
    }
}

impl<W: Sink> Hook<W> for MessageHook {
    open spec fn report(&self, info: FaultInfo) -> Seq<char> {
        self.message()
    }

    fn on_fault(&mut self, out: &mut W, info: &FaultInfo) {
        out.write_str(self.message.as_str());
    }
}

} // verus!
