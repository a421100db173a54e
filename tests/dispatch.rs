use panic_dispatch::{
    DispatchSlot, FaultInfo, FixedBuffer, MessageHook, PanicHandler, Sink, SlotState, TextBuffer,
};

fn chars(s: &str) -> Vec<char> {
    s.chars().collect()
}

#[test]
fn handler_reads_and_writes_like_its_sink() {
    let mut direct = TextBuffer::new();
    direct.write_str("hello, ");
    direct.write_str("world");

    let mut h = PanicHandler::new(TextBuffer::new());
    h.write_str("hello, ");
    h.write_str("world");

    assert_eq!(h.get_ref().as_chars(), direct.as_chars());
    assert_eq!(h.get_ref().as_chars(), &chars("hello, world")[..]);
}

#[test]
fn handler_over_fixed_buffer_truncates_like_it() {
    let mut direct = FixedBuffer::new(4);
    direct.write_str("abcdef");
    let mut h = PanicHandler::new(FixedBuffer::new(4));
    h.write_str("abcdef");
    assert_eq!(h.get_ref().as_chars(), direct.as_chars());
    assert_eq!(direct.as_chars(), &chars("abcd")[..]);
}

#[test]
fn get_inner_writes_to_the_sink() {
    let mut slot = DispatchSlot::new();
    let mut h = PanicHandler::new(TextBuffer::new());
    h.register(&mut slot);
    h.get_inner().write_str("log line");
    assert!(h.is_registered(&slot));
    assert_eq!(h.get_ref().as_chars(), &chars("log line")[..]);
}

#[test]
fn latest_registration_wins() {
    let mut slot = DispatchSlot::new();
    let mut h1 = PanicHandler::new_with_hook(TextBuffer::new(), MessageHook::new("first"));
    let mut h2 = PanicHandler::new_with_hook(TextBuffer::new(), MessageHook::new("second"));
    h1.register(&mut slot);
    h2.register(&mut slot);
    assert!(!h1.is_registered(&slot));
    assert!(h2.is_registered(&slot));

    let info = FaultInfo::new("boom");
    let reported = slot.fault(&mut h1, &info);
    assert!(!reported);
    assert!(h1.get_ref().as_chars().is_empty());
    assert_eq!(slot.current(), SlotState::Halted);
}

#[test]
fn latest_registration_reports() {
    let mut slot = DispatchSlot::new();
    let mut h1 = PanicHandler::new_with_hook(TextBuffer::new(), MessageHook::new("first"));
    let mut h2 = PanicHandler::new_with_hook(TextBuffer::new(), MessageHook::new("second"));
    h1.register(&mut slot);
    h2.register(&mut slot);

    let info = FaultInfo::new("boom");
    assert!(slot.fault(&mut h2, &info));
    assert_eq!(h2.get_ref().as_chars(), &chars("second")[..]);
    assert!(h1.get_ref().as_chars().is_empty());
}

#[test]
fn registering_again_changes_nothing() {
    let mut slot = DispatchSlot::new();
    let mut h = PanicHandler::new(TextBuffer::new());
    h.register(&mut slot);
    assert_eq!(slot.current(), SlotState::Registered(0));
    h.register(&mut slot);
    assert_eq!(slot.current(), SlotState::Registered(0));
    assert!(h.is_registered(&slot));
}

#[test]
fn writing_through_registered_handler_keeps_registration() {
    let mut slot = DispatchSlot::new();
    let mut h = PanicHandler::new(TextBuffer::new());
    h.register(&mut slot);
    h.write_str("output");
    assert!(h.is_registered(&slot));
    let sink = h.detach(&mut slot);
    assert_eq!(slot.current(), SlotState::Empty);
    assert_eq!(sink.as_chars(), &chars("output")[..]);
}

#[test]
fn fixed_buffer_fills_across_writes() {
    let mut b = FixedBuffer::new(3);
    b.write_str("ab");
    b.write_str("cd");
    b.write_str("ef");
    assert_eq!(b.as_chars(), &chars("abc")[..]);
}

#[test]
fn message_hook_ignores_metadata() {
    let mut outputs = Vec::new();
    for text in ["panicked at a.rs:1: one", "panicked at b.rs:2: two"] {
        let mut slot = DispatchSlot::new();
        let mut h = PanicHandler::new_with_hook(TextBuffer::new(), MessageHook::new("FAULT"));
        h.register(&mut slot);
        assert!(slot.fault(&mut h, &FaultInfo::new(text)));
        outputs.push(h.get_ref().as_chars().to_vec());
    }
    assert_eq!(outputs[0], outputs[1]);
    assert_eq!(outputs[0], chars("FAULT"));
}

#[test]
fn detach_empties_slot() {
    let mut slot = DispatchSlot::new();
    let mut h = PanicHandler::new(TextBuffer::new());
    h.register(&mut slot);
    let _sink = h.detach(&mut slot);
    assert_eq!(slot.current(), SlotState::Empty);

    let mut other = PanicHandler::new(TextBuffer::new());
    let info = FaultInfo::new("boom");
    assert!(!slot.fault(&mut other, &info));
    assert!(other.get_ref().as_chars().is_empty());
}

#[test]
fn destroy_empties_slot() {
    let mut slot = DispatchSlot::new();
    let mut h = PanicHandler::new(TextBuffer::new());
    h.register(&mut slot);
    h.destroy(&mut slot);
    assert_eq!(slot.current(), SlotState::Empty);

    let mut other = PanicHandler::new(TextBuffer::new());
    assert!(!slot.fault(&mut other, &FaultInfo::new("boom")));
    assert!(other.get_ref().as_chars().is_empty());
}

#[test]
fn releasing_a_stale_handler_keeps_the_current_entry() {
    let mut slot = DispatchSlot::new();
    let mut h1 = PanicHandler::new(TextBuffer::new());
    let mut h2 = PanicHandler::new(TextBuffer::new());
    h1.register(&mut slot);
    h2.register(&mut slot);
    let _ = h1.detach(&mut slot);
    assert_eq!(slot.current(), SlotState::Registered(1));
    assert!(h2.is_registered(&slot));
}

#[test]
fn detach_without_registration_is_harmless() {
    let mut slot = DispatchSlot::new();
    let mut h = PanicHandler::new(TextBuffer::new());
    h.write_str("kept");
    let sink = h.detach(&mut slot);
    assert_eq!(slot.current(), SlotState::Empty);
    assert_eq!(sink.as_chars(), &chars("kept")[..]);
}

#[test]
fn register_detach_round_trip() {
    let mut buf = TextBuffer::new();
    buf.write_str("accumulated ");
    buf.write_str("content");
    let before: Vec<char> = buf.as_chars().to_vec();

    let mut slot = DispatchSlot::new();
    let mut h = PanicHandler::new(buf);
    h.register(&mut slot);
    let back = h.detach(&mut slot);
    assert_eq!(back.as_chars(), &before[..]);
    assert_eq!(slot.current(), SlotState::Empty);
}

#[test]
fn default_hook_writes_fault_text() {
    let mut slot = DispatchSlot::new();
    let mut h = PanicHandler::new(FixedBuffer::new(128));
    h.register(&mut slot);
    let text = "panicked at src.rs:10: index out of bounds";
    let info = FaultInfo::new(text);
    assert!(slot.fault(&mut h, &info));
    assert_eq!(h.get_ref().as_chars(), &chars(text)[..]);
}

#[test]
fn default_hook_on_small_buffer_keeps_what_fits() {
    let mut slot = DispatchSlot::new();
    let mut h = PanicHandler::new(FixedBuffer::new(8));
    h.register(&mut slot);
    let info = FaultInfo::new("panicked at src.rs:10: index out of bounds");
    assert!(slot.fault(&mut h, &info));
    assert_eq!(h.get_ref().as_chars(), &chars("panicked")[..]);
}

#[test]
fn message_hook_writes_only_its_message() {
    let mut slot = DispatchSlot::new();
    let mut h = PanicHandler::new_with_hook(FixedBuffer::new(64), MessageHook::new("FAULT"));
    h.register(&mut slot);
    let info = FaultInfo::new("panicked at src.rs:10: index out of bounds");
    assert!(slot.fault(&mut h, &info));
    assert_eq!(h.get_ref().as_chars(), &chars("FAULT")[..]);
}

#[test]
fn report_follows_earlier_output() {
    let mut slot = DispatchSlot::new();
    let mut h = PanicHandler::new(TextBuffer::new());
    h.write_str("log; ");
    h.register(&mut slot);
    assert!(slot.fault(&mut h, &FaultInfo::new("oops")));
    assert_eq!(h.get_ref().as_chars(), &chars("log; oops")[..]);
}

#[test]
fn no_registration_no_report() {
    let mut slot = DispatchSlot::new();
    let mut h = PanicHandler::new(FixedBuffer::new(64));
    let info = FaultInfo::new("panicked at src.rs:10: index out of bounds");
    assert!(!slot.fault(&mut h, &info));
    assert!(h.get_ref().as_chars().is_empty());
    assert_eq!(slot.current(), SlotState::Halted);
}

#[test]
fn fault_info_keeps_its_text() {
    let info = FaultInfo::new("panicked at a.rs:1: x");
    assert_eq!(info.as_str(), "panicked at a.rs:1: x");
}

#[test]
fn fresh_slot_is_empty() {
    assert_eq!(DispatchSlot::new().current(), SlotState::Empty);
}
