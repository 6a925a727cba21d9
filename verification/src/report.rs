//! Framing of the text protocol into 64-byte HID reports, and recognition of
//! the microphone's HID interface.
use vstd::prelude::*;
use vstd::string::*;
use vstd::utf8::{decode_utf8, valid_utf8};
use crate::text::{trim_str, trimmed};

verus! {

/// USB vendor id of the MV7.
pub const VID: u16 = 0x14ED;

/// USB product id of the MV7.
pub const PID: u16 = 0x1012;

/// Number of the HID interface that speaks the text protocol.
pub const INTERFACE: i32 = 3;

/// Payload size of one HID report.
pub const REPORT_SIZE: usize = 64;

/// Whether a HID interface with these ids is the MV7's text-protocol one.
pub fn is_mv7_interface(vendor_id: u16, product_id: u16, interface_number: i32) -> (b: bool)
    ensures
        b == (vendor_id == VID && product_id == PID && interface_number == INTERFACE),
{
    vendor_id == VID && product_id == PID && interface_number == INTERFACE
}

/// The output report that carries `cmd`: report id 0, then the command's
/// UTF-8 bytes cut to 64, then zeros up to 65 bytes in all.
pub open spec fn report_bytes(cmd: Seq<u8>) -> Seq<u8> {
    Seq::new(
        (REPORT_SIZE + 1) as nat,
        |i: int|
            if 1 <= i && i - 1 < cmd.len() {
                cmd[i - 1]
            } else {
                0u8
            },
    )
}

/// Frames a command line into the output report that carries it.
pub fn encode_report(cmd: &str) -> (report: Vec<u8>)
    ensures
        report@ == report_bytes(cmd.spec_bytes()),
{
    let bytes = cmd.as_bytes();
    let len = if bytes.len() < REPORT_SIZE {
        bytes.len()
    } else {
        REPORT_SIZE
    };
    let mut report: Vec<u8> = Vec::new();
    report.push(0u8);
    let mut i: usize = 0;
    while i < REPORT_SIZE
        invariant
            i <= REPORT_SIZE,
            len <= bytes@.len(),
            len == bytes@.len() || len == REPORT_SIZE,
            bytes@ == cmd.spec_bytes(),
            report@.len() == i + 1,
            forall|k: int|
                0 <= k < i + 1 ==> #[trigger] report@[k] == report_bytes(cmd.spec_bytes())[k],
        decreases REPORT_SIZE - i,
    {
        if i < len {
            report.push(bytes[i]);
        } else {
            report.push(0u8);
        }
        i = i + 1;
    }
    assert(report@ =~= report_bytes(cmd.spec_bytes()));
    report
}

/// The text of a byte string read as UTF-8 with every invalid sequence
/// replaced by U+FFFD, as `String::from_utf8_lossy` gives it.
pub uninterp spec fn lossy_text(bytes: Seq<u8>) -> Seq<char>;

/// `String::from_utf8_lossy`: the text of `bytes`, invalid sequences
/// replaced. Its documentation promises that valid UTF-8 comes out
/// unchanged; the replacement of invalid input is left to the name.
#[verifier::external_body]
fn utf8_lossy(bytes: &[u8]) -> (s: String)
    ensures
        s@ == lossy_text(bytes@),
        valid_utf8(bytes@) ==> s@ == decode_utf8(bytes@),
{
    String::from_utf8_lossy(bytes).into_owned()
}

/// `end` is where the text of a report read into `buf` ends, when the read
/// returned `len` bytes: at the first NUL byte of the buffer, or at `len`
/// when it holds none.
pub open spec fn text_end(buf: Seq<u8>, len: int, end: int) -> bool {
    ||| 0 <= end < buf.len() && buf[end] == 0 && forall|k: int| 0 <= k < end ==> #[trigger] buf[k]
        != 0
    ||| end == len && forall|k: int| 0 <= k < buf.len() ==> #[trigger] buf[k] != 0
}

/// The message carried by an input report that a read of `len` bytes left
/// in `buf`: none when the read returned nothing; otherwise the text before
/// the end, trimmed of white space, and none when nothing is left of it.
pub open spec fn report_message(buf: Seq<u8>, len: int) -> Option<Seq<char>> {
    if len == 0 {
        None
    } else {
        let end = choose|end: int| text_end(buf, len, end);
        let t = trimmed(lossy_text(buf.take(end)));
        if t.len() == 0 {
            None
        } else {
            Some(t)
        }
    }
}

/// Reads the message out of an input report.
pub fn decode_report(buf: &[u8], len: usize) -> (msg: Option<String>)
    requires
        len <= buf@.len(),
    ensures
        match msg {
            Some(m) => report_message(buf@, len as int) == Some(m@),
            None => report_message(buf@, len as int) is None,
        },
{
    if len == 0 {
        return None;
    }
    let mut end: usize = 0;
    while end < buf.len() && buf[end] != 0
        invariant
            end <= buf@.len(),
            forall|k: int| 0 <= k < end ==> #[trigger] buf@[k] != 0,
        decreases buf@.len() - end,
    {
        end = end + 1;
    }
    if end == buf.len() {
        end = len;
    }
    assert(text_end(buf@, len as int, end as int));
    let ghost chosen = choose|e: int| text_end(buf@, len as int, e);
    assert(chosen == end) by {
        assert(text_end(buf@, len as int, chosen));
        if chosen < end && chosen < buf@.len() {
            assert(buf@[chosen] != 0);
        }
        if end < chosen && end < buf@.len() {
            assert(buf@[end as int] != 0);
        }
    }
    let (head, _) = buf.split_at(end);
    assert(head@ =~= buf@.take(end as int));
    let text = utf8_lossy(head);
    let t = trim_str(text.as_str());
    if t.unicode_len() == 0 {
        None
    } else {
        Some(t)
    }
}

} // verus!
