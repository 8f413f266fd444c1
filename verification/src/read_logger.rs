//! The protocol logger stream: 32-bit status words of the device's USB state
//! machine, decoded into state lines in a verbose and a compact form.

use crate::telemetry::{hexdump, to_hexdump, Report};
use crate::text::{decimal, hex, pad_left, push_decimal, push_decimal_padded, push_hex};
use vstd::prelude::*;
use vstd::string::*;

verus! {

/// The protocol state in the lowest three bits of a word.
pub open spec fn state_bits(val: u32) -> u32 {
    val % 8
}

/// The protocol state in the lowest four bits of a word, as the compact form
/// reads it.
pub open spec fn wide_state_bits(val: u32) -> u32 {
    val % 16
}

/// The receive flag, bit 3 of a word.
pub open spec fn rx_flag(val: u32) -> bool {
    (val / 8) % 2 == 1
}

/// The packet id, bits 4 to 7 of a word.
pub open spec fn pid_bits(val: u32) -> u32 {
    (val / 0x10) % 16
}

/// The activity of the first endpoint, bits 8 to 11 of a word.
pub open spec fn first_endpoint_bits(val: u32) -> u32 {
    (val / 0x100) % 16
}

/// The activity of the second endpoint, bits 12 to 15 of a word.
pub open spec fn second_endpoint_bits(val: u32) -> u32 {
    (val / 0x1000) % 16
}

/// The activity of the third endpoint, bits 16 to 19 of a word.
pub open spec fn third_endpoint_bits(val: u32) -> u32 {
    (val / 0x1_0000) % 16
}

/// The start-of-frame counter, bits 20 to 30 of a word.
pub open spec fn sof_bits(val: u32) -> u32 {
    (val / 0x10_0000) % 0x800
}

/// The name of a protocol state.
pub open spec fn state_name(state: u32) -> Seq<char> {
    if state == 0 {
        "ST_IDLE"@
    } else if state == 1 {
        "ST_RECV"@
    } else if state == 2 {
        "ST_RESP"@
    } else if state == 3 {
        "ST_DROP"@
    } else if state == 4 {
        "ST_SEND"@
    } else if state == 5 {
        "ST_WAIT"@
    } else {
        "- XXX -"@
    }
}

/// What stands in the state column of a verbose line: blanks where the state
/// is that of the word before, the state's name otherwise.
pub open spec fn state_label(val: u32, prev: u32) -> Seq<char> {
    if state_bits(val) == state_bits(prev) {
        "       "@
    } else {
        state_name(state_bits(val))
    }
}

/// The label of a USB packet id.
pub open spec fn pid_label(pid: u32) -> Seq<char> {
    if pid == 0x0 {
        " n/a "@
    } else if pid == 0x1 {
        " OUT "@
    } else if pid == 0x2 {
        " ACK "@
    } else if pid == 0x3 {
        "DATA0"@
    } else if pid == 0x4 {
        "PING "@
    } else if pid == 0x5 {
        " SOF "@
    } else if pid == 0x6 {
        "NYET "@
    } else if pid == 0x7 {
        "DATA2"@
    } else if pid == 0x8 {
        "SPLIT"@
    } else if pid == 0x9 {
        " IN  "@
    } else if pid == 0xA {
        " NAK "@
    } else if pid == 0xB {
        "DATA1"@
    } else if pid == 0xC {
        " ERR "@
    } else if pid == 0xD {
        "SETUP"@
    } else if pid == 0xE {
        "STALL"@
    } else if pid == 0xF {
        "MDATA"@
    } else {
        " --- "@
    }
}

/// What stands in the receive column of a verbose line.
pub open spec fn rx_label(val: u32) -> Seq<char> {
    if rx_flag(val) {
        "RX"@
    } else {
        "  "@
    }
}

/// The verbose state line of one word with a given text in its state column.
pub open spec fn verbose_line_with(seq: nat, val: u32, state: Seq<char>) -> Seq<char> {
    "@"@ + pad_left(decimal(seq), 5) + "  -> 0x"@ + hex(val as nat, 8) + " { SOF = "@ + pad_left(
        decimal(sof_bits(val) as nat),
        4,
    ) + " : "@ + state + " : "@ + pid_label(pid_bits(val)) + " : "@ + rx_label(val) + " : "@ + hex(
        first_endpoint_bits(val) as nat,
        1,
    ) + " : "@ + hex(second_endpoint_bits(val) as nat, 1) + " : "@ + hex(
        third_endpoint_bits(val) as nat,
        1,
    ) + " }"@
}

/// The verbose state line of one word, given the word before it.
pub open spec fn verbose_line(seq: nat, val: u32, prev: u32) -> Seq<char> {
    verbose_line_with(seq, val, state_label(val, prev))
}

/// The verbose state line of the first word of a stream: it has no word
/// before it, so its state is named whatever it is.
pub open spec fn first_verbose_line(val: u32) -> Seq<char> {
    verbose_line_with(0, val, state_name(state_bits(val)))
}

/// The compact state line of one word.
pub open spec fn compact_line(seq: nat, val: u32) -> Seq<char> {
    "@"@ + pad_left(decimal(seq), 5) + "  -> { "@ + state_name(wide_state_bits(val)) + " : SOF = "@
        + pad_left(decimal(sof_bits(val) as nat), 4) + " : "@ + hex(pid_bits(val) as nat, 1)
        + " : "@ + hex(first_endpoint_bits(val) as nat, 1) + " : "@ + hex(
        second_endpoint_bits(val) as nat,
        1,
    ) + " : "@ + hex(third_endpoint_bits(val) as nat, 1) + " }"@
}

/// Word `index` of a stream of little-endian 32-bit words.
pub open spec fn le_word(bytes: Seq<u8>, index: int) -> u32 {
    (bytes[4 * index] + 0x100 * bytes[4 * index + 1] + 0x1_0000 * bytes[4 * index + 2]
        + 0x100_0000 * bytes[4 * index + 3]) as u32
}

/// Word `index` of a stream of big-endian 32-bit words.
pub open spec fn be_word(bytes: Seq<u8>, index: int) -> u32 {
    (0x100_0000 * bytes[4 * index] + 0x1_0000 * bytes[4 * index + 1] + 0x100 * bytes[4 * index
        + 2] + bytes[4 * index + 3]) as u32
}

/// Line `index` of the verbose decode of a stream: the first word's line
/// names its state, every later word is held against the word before it.
pub open spec fn verbose_line_at(bytes: Seq<u8>, index: int) -> Seq<char> {
    if index == 0 {
        first_verbose_line(le_word(bytes, 0))
    } else {
        verbose_line(index as nat, le_word(bytes, index), le_word(bytes, index - 1))
    }
}

/// The verbose state lines of a stream: one for each full little-endian word,
/// numbered from zero.
pub open spec fn verbose_lines(bytes: Seq<u8>) -> Seq<Seq<char>> {
    Seq::new(bytes.len() / 4, |i: int| verbose_line_at(bytes, i))
}

/// The compact state lines of a stream: one for each full big-endian word,
/// numbered from zero.
pub open spec fn compact_lines(bytes: Seq<u8>) -> Seq<Seq<char>> {
    Seq::new(bytes.len() / 4, |i: int| compact_line(i as nat, be_word(bytes, i)))
}

/// The first line of a verbose decode names the state of the first word,
/// whatever the state is.
pub proof fn lemma_verbose_first_line_names_state(bytes: Seq<u8>)
    requires
        bytes.len() >= 4,
    ensures
        verbose_lines(bytes)[0] == verbose_line_with(
            0,
            le_word(bytes, 0),
            state_name(state_bits(le_word(bytes, 0))),
        ),
{
}

/// A verbose decode blanks the state column of a word whose state is that of
/// the word before it, and names the state of a word whose state differs.
pub proof fn lemma_verbose_repeats_are_blank(bytes: Seq<u8>, index: int)
    requires
        0 < index < bytes.len() / 4,
    ensures
        verbose_lines(bytes)[index] == verbose_line(
            index as nat,
            le_word(bytes, index),
            le_word(bytes, index - 1),
        ),
        state_bits(le_word(bytes, index)) == state_bits(le_word(bytes, index - 1))
            ==> state_label(le_word(bytes, index), le_word(bytes, index - 1)) == "       "@,
        state_bits(le_word(bytes, index)) != state_bits(le_word(bytes, index - 1))
            ==> state_label(le_word(bytes, index), le_word(bytes, index - 1)) == state_name(
            state_bits(le_word(bytes, index)),
        ),
{
}

/// The name of a protocol state.
pub fn state_name_of(state: u32) -> (name: &'static str)
    ensures
        name@ == state_name(state),
{
    if state == 0 {
        "ST_IDLE"
    } else if state == 1 {
        "ST_RECV"
    } else if state == 2 {
        "ST_RESP"
    } else if state == 3 {
        "ST_DROP"
    } else if state == 4 {
        "ST_SEND"
    } else if state == 5 {
        "ST_WAIT"
    } else {
        "- XXX -"
    }
}

/// The label of a USB packet id.
pub fn pid_label_of(pid: u32) -> (label: &'static str)
    ensures
        label@ == pid_label(pid),
{
    if pid == 0x0 {
        " n/a "
    } else if pid == 0x1 {
        " OUT "
    } else if pid == 0x2 {
        " ACK "
    } else if pid == 0x3 {
        "DATA0"
    } else if pid == 0x4 {
        "PING "
    } else if pid == 0x5 {
        " SOF "
    } else if pid == 0x6 {
        "NYET "
    } else if pid == 0x7 {
        "DATA2"
    } else if pid == 0x8 {
        "SPLIT"
    } else if pid == 0x9 {
        " IN  "
    } else if pid == 0xA {
        " NAK "
    } else if pid == 0xB {
        "DATA1"
    } else if pid == 0xC {
        " ERR "
    } else if pid == 0xD {
        "SETUP"
    } else if pid == 0xE {
        "STALL"
    } else if pid == 0xF {
        "MDATA"
    } else {
        " --- "
    }
}

/// The fields of a word, cut out with shifts and masks.
struct Fields {
    state: u32,
    wide_state: u32,
    rx: bool,
    pid: u32,
    ep1: u32,
    ep2: u32,
    ep3: u32,
    sof: u32,
}

fn fields_of(val: u32) -> (fields: Fields)
    ensures
        fields.state == state_bits(val),
        fields.wide_state == wide_state_bits(val),
        fields.rx == rx_flag(val),
        fields.pid == pid_bits(val),
        fields.ep1 == first_endpoint_bits(val),
        fields.ep2 == second_endpoint_bits(val),
        fields.ep3 == third_endpoint_bits(val),
        fields.sof == sof_bits(val),
{
    assert(val & 0x07 == val % 8) by (bit_vector);
    assert(val & 0x0F == val % 16) by (bit_vector);
    assert((val >> 3) & 0x01 == (val / 8) % 2) by (bit_vector);
    assert((val >> 4) & 0x0F == (val / 0x10) % 16) by (bit_vector);
    assert((val >> 8) & 0x0F == (val / 0x100) % 16) by (bit_vector);
    assert((val >> 12) & 0x0F == (val / 0x1000) % 16) by (bit_vector);
    assert((val >> 16) & 0x0F == (val / 0x1_0000) % 16) by (bit_vector);
    assert((val >> 20) & 0x07ff == (val / 0x10_0000) % 0x800) by (bit_vector);
    Fields {
        state: val & 0x07,
        wide_state: val & 0x0F,
        rx: (val >> 3) & 0x01 == 0x01,
        pid: (val >> 4) & 0x0F,
        ep1: (val >> 8) & 0x0F,
        ep2: (val >> 12) & 0x0F,
        ep3: (val >> 16) & 0x0F,
        sof: (val >> 20) & 0x07ff,
    }
}

/// Decodes one word of the stream into its verbose state line; `prev` is the
/// word before it. Where both words are in the same state, the state column
/// is left blank.
pub fn to_state(seq: usize, val: u32, prev: u32) -> (line: String)
    ensures
        line@ == verbose_line(seq as nat, val, prev),
{
    let fields = fields_of(val);
    let before = fields_of(prev);
    let state = if fields.state == before.state {
        "       "
    } else {
        state_name_of(fields.state)
    };
    state_line(seq, val, &fields, state)
}

/// Decodes the first word of a stream into its verbose state line. No word
/// stands before it, so its state is named.
pub fn to_first_state(val: u32) -> (line: String)
    ensures
        line@ == first_verbose_line(val),
{
    let fields = fields_of(val);
    state_line(0, val, &fields, state_name_of(fields.state))
}

/// Writes the verbose state line of a word around the text of its state
/// column.
fn state_line(seq: usize, val: u32, fields: &Fields, state: &str) -> (line: String)
    requires
        fields.sof == sof_bits(val),
        fields.rx == rx_flag(val),
        fields.pid == pid_bits(val),
        fields.ep1 == first_endpoint_bits(val),
        fields.ep2 == second_endpoint_bits(val),
        fields.ep3 == third_endpoint_bits(val),
    ensures
        line@ == verbose_line_with(seq as nat, val, state@),
{
    let rx = if fields.rx {
        "RX"
    } else {
        "  "
    };
    let mut line = String::from_str("@");
    push_decimal_padded(&mut line, seq, 5);
    line.append("  -> 0x");
    push_hex(&mut line, val, 8);
    line.append(" { SOF = ");
    push_decimal_padded(&mut line, fields.sof as usize, 4);
    line.append(" : ");
    line.append(state);
    line.append(" : ");
    line.append(pid_label_of(fields.pid));
    line.append(" : ");
    line.append(rx);
    line.append(" : ");
    push_hex(&mut line, fields.ep1, 1);
    line.append(" : ");
    push_hex(&mut line, fields.ep2, 1);
    line.append(" : ");
    push_hex(&mut line, fields.ep3, 1);
    line.append(" }");
    line
}

/// Decodes one word of the stream into its compact state line.
pub fn to_compact_state(seq: usize, val: u32) -> (line: String)
    ensures
        line@ == compact_line(seq as nat, val),
{
    let fields = fields_of(val);
    let mut line = String::from_str("@");
    push_decimal_padded(&mut line, seq, 5);
    line.append("  -> { ");
    line.append(state_name_of(fields.wide_state));
    line.append(" : SOF = ");
    push_decimal_padded(&mut line, fields.sof as usize, 4);
    line.append(" : ");
    push_hex(&mut line, fields.pid, 1);
    line.append(" : ");
    push_hex(&mut line, fields.ep1, 1);
    line.append(" : ");
    push_hex(&mut line, fields.ep2, 1);
    line.append(" : ");
    push_hex(&mut line, fields.ep3, 1);
    line.append(" }");
    line
}

/// Reads word `index` of a little-endian stream.
fn read_le_word(bytes: &[u8], index: usize) -> (word: u32)
    requires
        4 * index + 3 < bytes@.len() <= usize::MAX,
    ensures
        word == le_word(bytes@, index as int),
{
    let b0: u32 = bytes[4 * index] as u32;
    let b1: u32 = bytes[4 * index + 1] as u32;
    let b2: u32 = bytes[4 * index + 2] as u32;
    let b3: u32 = bytes[4 * index + 3] as u32;
    b0 + 0x100 * b1 + 0x1_0000 * b2 + 0x100_0000 * b3
}

/// Reads word `index` of a big-endian stream.
fn read_be_word(bytes: &[u8], index: usize) -> (word: u32)
    requires
        4 * index + 3 < bytes@.len() <= usize::MAX,
    ensures
        word == be_word(bytes@, index as int),
{
    let b0: u32 = bytes[4 * index] as u32;
    let b1: u32 = bytes[4 * index + 1] as u32;
    let b2: u32 = bytes[4 * index + 2] as u32;
    let b3: u32 = bytes[4 * index + 3] as u32;
    0x100_0000 * b0 + 0x1_0000 * b1 + 0x100 * b2 + b3
}

/// Decodes a stream of little-endian words into verbose state lines. The
/// first line names the state of its word; after it, a state that repeats the
/// one before it is shown as blanks.
pub fn decode_verbose(bytes: &[u8]) -> (lines: Vec<String>)
    ensures
        lines@.len() == verbose_lines(bytes@).len(),
        forall|i: int|
            0 <= i < lines@.len() ==> (#[trigger] lines@[i])@ == verbose_lines(bytes@)[i],
{
    let count: usize = bytes.len() / 4;
    let mut lines: Vec<String> = Vec::new();
    if count == 0 {
        return lines;
    }
    let mut prev: u32 = read_le_word(bytes, 0);
    lines.push(to_first_state(prev));
    let mut index: usize = 1;
    while index < count
        invariant
            1 <= index <= count,
            count == bytes@.len() / 4,
            bytes@.len() <= usize::MAX,
            lines@.len() == index,
            prev == le_word(bytes@, index - 1),
            forall|i: int| 0 <= i < index ==> (#[trigger] lines@[i])@ == verbose_line_at(bytes@, i),
        decreases count - index,
    {
        let sample = read_le_word(bytes, index);
        let line = to_state(index, sample, prev);
        lines.push(line);
        prev = sample;
        index = index + 1;
    }
    lines
}

/// Decodes a stream of big-endian words into compact state lines, every state
/// named on its line.
pub fn decode_compact(bytes: &[u8]) -> (lines: Vec<String>)
    ensures
        lines@.len() == compact_lines(bytes@).len(),
        forall|i: int|
            0 <= i < lines@.len() ==> (#[trigger] lines@[i])@ == compact_lines(bytes@)[i],
{
    let count: usize = bytes.len() / 4;
    let mut lines: Vec<String> = Vec::new();
    let mut index: usize = 0;
    while index < count
        invariant
            index <= count,
            count == bytes@.len() / 4,
            bytes@.len() <= usize::MAX,
            lines@.len() == index,
            forall|i: int|
                0 <= i < index ==> (#[trigger] lines@[i])@ == compact_line(
                    i as nat,
                    be_word(bytes@, i),
                ),
        decreases count - index,
    {
        let sample = read_be_word(bytes, index);
        let line = to_compact_state(index, sample);
        lines.push(line);
        index = index + 1;
    }
    lines
}

/// The text that reports the length of a stream.
pub open spec fn length_line(len: nat) -> Seq<char> {
    "Length: "@ + decimal(len) + "\n"@
}

/// What the logger prints for a drained stream: its dump, and above the first
/// level of verbosity the stream's length.
pub open spec fn logger_print(bytes: Seq<u8>, verbose: u8) -> Seq<char> {
    if verbose > 1 {
        hexdump(bytes) + length_line(bytes.len())
    } else {
        hexdump(bytes)
    }
}

/// What to show for a drained logger stream: its dump, and above the first
/// level of verbosity its length and its verbose state lines.
pub fn tart_logger(bytes: &[u8], verbose: u8) -> (report: Report)
    ensures
        report.printed@ == logger_print(bytes@, verbose),
        verbose > 1 ==> report.logged@.len() == verbose_lines(bytes@).len(),
        verbose > 1 ==> forall|i: int|
            0 <= i < report.logged@.len() ==> (#[trigger] report.logged@[i])@ == verbose_lines(
                bytes@,
            )[i],
        verbose <= 1 ==> report.logged@.len() == 0,
{
    let mut printed = to_hexdump(bytes);
    if verbose > 1 {
        printed.append("Length: ");
        push_decimal(&mut printed, bytes.len());
        printed.append("\n");
        let logged = decode_verbose(bytes);
        Report { printed, logged }
    } else {
        Report { printed, logged: Vec::new() }
    }
}

} // verus!
