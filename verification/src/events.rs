//! Kernel input-event records and the click emission protocol.
//!
//! A virtual input device is driven by writing fixed-size binary event
//! records to its control handle. One completed button click is exactly four
//! records, in this order: press, synchronization report, release,
//! synchronization report. This module defines the record type, its binary
//! layout, and the four-record click sequence.

use vstd::bytes::*;
use vstd::prelude::*;

verus! {

/// Event class of button state changes (`EV_KEY`).
pub const EVENT_CLASS_KEY: u16 = 0x01;

/// Event class of synchronization markers (`EV_SYN`).
pub const EVENT_CLASS_SYNC: u16 = 0x00;

/// Event code of the "report" synchronization marker (`SYN_REPORT`).
pub const SYNC_REPORT_CODE: u16 = 0x00;

/// Event code of the left mouse button (`BTN_LEFT`).
pub const BUTTON_LEFT_CODE: u16 = 0x110;

/// Event code of the right mouse button (`BTN_RIGHT`).
pub const BUTTON_RIGHT_CODE: u16 = 0x111;

/// Event code of the middle mouse button (`BTN_MIDDLE`).
pub const BUTTON_MIDDLE_CODE: u16 = 0x112;

/// Event value of a button press.
pub const VALUE_PRESS: i32 = 1;

/// Event value of a button release (also used by synchronization markers).
pub const VALUE_RELEASE: i32 = 0;

/// A mouse button the virtual device can report.
#[derive(Clone, Copy, Debug, PartialEq, Eq, Structural)]
pub enum Button {
    Left,
    Right,
    Middle,
}

impl Button {
    /// The kernel event code of this button.
    pub open spec fn spec_code(self) -> u16 {
        match self {
            Button::Left => BUTTON_LEFT_CODE,
            Button::Right => BUTTON_RIGHT_CODE,
            Button::Middle => BUTTON_MIDDLE_CODE,
        }
    }

    /// Returns the kernel event code of this button.
    pub fn code(self) -> (r: u16)
        ensures
            r == self.spec_code(),
    {
        match self {
            Button::Left => BUTTON_LEFT_CODE,
            Button::Right => BUTTON_RIGHT_CODE,
            Button::Middle => BUTTON_MIDDLE_CODE,
        }
    }
}

/// One kernel event record: a timestamp (seconds and microseconds, signed
/// platform words, both allowed to be zero), an event class, an event code,
/// and a value (1 = press, 0 = release or synchronization marker).
///
/// A record is transient: it exists only to be encoded and written.
#[derive(Clone, Copy, Debug, PartialEq, Eq, Structural)]
pub struct EventRecord {
    /// Timestamp seconds.
    pub seconds: i64,
    /// Timestamp microseconds.
    pub microseconds: i64,
    /// Event class (`EVENT_CLASS_KEY` or `EVENT_CLASS_SYNC`).
    pub kind: u16,
    /// Event code (a button code, or `SYNC_REPORT_CODE`).
    pub code: u16,
    /// Event value.
    pub value: i32,
}

/// A key event record for the given button code and value, with a zero
/// timestamp (the kernel does not require caller-supplied wall-clock time).
pub open spec fn key_record(code: u16, value: i32) -> EventRecord {
    EventRecord { seconds: 0, microseconds: 0, kind: EVENT_CLASS_KEY, code, value }
}

/// The synchronization report record, with a zero timestamp.
pub open spec fn sync_record() -> EventRecord {
    EventRecord {
        seconds: 0,
        microseconds: 0,
        kind: EVENT_CLASS_SYNC,
        code: SYNC_REPORT_CODE,
        value: VALUE_RELEASE,
    }
}

/// The four records of one completed click of the button with the given
/// code: press, sync report, release, sync report, with the code held
/// constant across press and release.
pub open spec fn click_seq(code: u16) -> Seq<EventRecord> {
    seq![
        key_record(code, VALUE_PRESS),
        sync_record(),
        key_record(code, VALUE_RELEASE),
        sync_record(),
    ]
}

/// Builds the four event records of one click of the button with the given
/// code, in emission order.
pub fn click_records(code: u16) -> (r: Vec<EventRecord>)
    ensures
        r@ == click_seq(code),
{
    let mut r: Vec<EventRecord> = Vec::new();
    r.push(EventRecord {
        seconds: 0,
        microseconds: 0,
        kind: EVENT_CLASS_KEY,
        code,
        value: VALUE_PRESS,
    });
    r.push(EventRecord {
        seconds: 0,
        microseconds: 0,
        kind: EVENT_CLASS_SYNC,
        code: SYNC_REPORT_CODE,
        value: VALUE_RELEASE,
    });
    r.push(EventRecord {
        seconds: 0,
        microseconds: 0,
        kind: EVENT_CLASS_KEY,
        code,
        value: VALUE_RELEASE,
    });
    r.push(EventRecord {
        seconds: 0,
        microseconds: 0,
        kind: EVENT_CLASS_SYNC,
        code: SYNC_REPORT_CODE,
        value: VALUE_RELEASE,
    });
    proof {
        assert(r@ =~= click_seq(code));
    }
    r
}

/// The binary layout of one event record, as the kernel reads it on a
/// 64-bit little-endian platform: seconds, microseconds, class, code, value,
/// each little-endian, 24 bytes in all. Negative fields are laid out as
/// their two's-complement images.
pub open spec fn record_bytes(r: EventRecord) -> Seq<u8> {
    spec_u64_to_le_bytes(r.seconds as u64) + spec_u64_to_le_bytes(r.microseconds as u64)
        + spec_u16_to_le_bytes(r.kind) + spec_u16_to_le_bytes(r.code) + spec_u32_to_le_bytes(
        r.value as u32,
    )
}

/// Encodes one event record into the 24-byte image the device handle
/// expects.
pub fn encode_event(r: &EventRecord) -> (b: Vec<u8>)
    ensures
        b@ == record_bytes(*r),
        b@.len() == 24,
{
    let mut b = u64_to_le_bytes(#[verifier::truncate] (r.seconds as u64));
    let mut part = u64_to_le_bytes(#[verifier::truncate] (r.microseconds as u64));
    b.append(&mut part);
    let mut part = u16_to_le_bytes(r.kind);
    b.append(&mut part);
    let mut part = u16_to_le_bytes(r.code);
    b.append(&mut part);
    let mut part = u32_to_le_bytes(#[verifier::truncate] (r.value as u32));
    b.append(&mut part);
    proof {
        assert(b@ =~= record_bytes(*r));
    }
    b
}

/// Builds the four encoded records of one click of the button with the
/// given code: each element is the 24-byte image of the corresponding record
/// of `click_seq`, in emission order.
pub fn click_bytes(code: u16) -> (r: Vec<Vec<u8>>)
    ensures
        r@.len() == 4,
        forall|i: int| 0 <= i < 4 ==> r@[i]@ == record_bytes(click_seq(code)[i]),
{
    let records = click_records(code);
    let mut r: Vec<Vec<u8>> = Vec::new();
    let mut i: usize = 0;
    while i < records.len()
        invariant
            records@ == click_seq(code),
            i <= records@.len(),
            r@.len() == i,
            forall|j: int| 0 <= j < i ==> r@[j]@ == record_bytes(click_seq(code)[j]),
        decreases records@.len() - i,
    {
        let b = encode_event(&records[i]);
        r.push(b);
        i = i + 1;
    }
    r
}

} // verus!
