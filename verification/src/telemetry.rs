//! The controller trace stream: draining it, dumping it as hexadecimal words,
//! and decoding its byte pairs into state lines.

use crate::common::{Error, TartResult};
use crate::text::{decimal, hex, hex_value, pad_left, pow16, push_decimal_padded, push_hex};
use crate::text::{lemma_hex_len, lemma_hex_round_trip};
use vstd::prelude::*;
use vstd::string::*;

verus! {

/// What a decoder hands back for one drained stream.
pub struct Report {
    /// The text for standard output.
    pub printed: String,
    /// The state lines for the log, one for each record of the stream.
    pub logged: Vec<String>,
}

/// The 16-bit words of a byte stream, low byte first. A last byte without a
/// partner belongs to no word.
pub open spec fn le_words(bytes: Seq<u8>) -> Seq<u16> {
    Seq::new(bytes.len() / 2, |i: int| (bytes[2 * i] + 256 * bytes[2 * i + 1]) as u16)
}

/// The character after word `index` of `count` words: a newline after every
/// sixteenth word and after the last one, a hyphen otherwise.
pub open spec fn separator(index: int, count: int) -> char {
    if index % 16 == 15 || index + 1 == count {
        '\n'
    } else {
        '-'
    }
}

/// The dump of the first `upto` of the words: each as four hexadecimal digits
/// and its separator.
pub open spec fn dump_cells(words: Seq<u16>, upto: nat) -> Seq<char>
    decreases upto,
{
    if upto == 0 {
        Seq::empty()
    } else {
        dump_cells(words, (upto - 1) as nat) + hex(words[upto - 1] as nat, 4).push(
            separator(upto - 1, words.len() as int),
        )
    }
}

/// The dump of a byte stream: sixteen words to a line, joined by hyphens,
/// every line closed by a newline; `<none>` for an empty stream.
pub open spec fn hexdump(bytes: Seq<u8>) -> Seq<char> {
    if bytes.len() == 0 {
        "<none>\n"@
    } else {
        dump_cells(le_words(bytes), le_words(bytes).len())
    }
}

/// The words that a dump shows: one for each cell of five characters, read
/// from the cell's four digits.
pub open spec fn dumped_words(text: Seq<char>) -> Seq<u16> {
    Seq::new(text.len() / 5, |i: int| hex_value(text.subrange(5 * i, 5 * i + 4)) as u16)
}

/// The dump of `upto` words has five characters for each, and the digits of
/// word `i` in cell `i`.
pub proof fn lemma_dump_cells(words: Seq<u16>, upto: nat)
    requires
        upto <= words.len(),
    ensures
        dump_cells(words, upto).len() == 5 * upto,
        forall|i: int|
            0 <= i < upto ==> #[trigger] dump_cells(words, upto).subrange(5 * i, 5 * i + 4) == hex(
                words[i] as nat,
                4,
            ),
        forall|i: int|
            0 <= i < upto ==> #[trigger] dump_cells(words, upto)[5 * i + 4] == separator(
                i,
                words.len() as int,
            ),
    decreases upto,
{
    if upto > 0 {
        let before = dump_cells(words, (upto - 1) as nat);
        let all = dump_cells(words, upto);
        lemma_dump_cells(words, (upto - 1) as nat);
        lemma_hex_len(words[upto - 1] as nat, 4);
        assert forall|i: int| 0 <= i < upto implies #[trigger] all.subrange(5 * i, 5 * i + 4)
            == hex(words[i] as nat, 4) by {
            if i < upto - 1 {
                assert(all.subrange(5 * i, 5 * i + 4) =~= before.subrange(5 * i, 5 * i + 4));
            }
        }
    }
}

/// Reading a dump back gives the words that went in: for every stream that is
/// not empty, the words shown by its dump are its own little-endian words.
pub proof fn lemma_hexdump_round_trip(bytes: Seq<u8>)
    requires
        bytes.len() > 0,
    ensures
        dumped_words(hexdump(bytes)) == le_words(bytes),
{
    let words = le_words(bytes);
    lemma_dump_cells(words, words.len());
    assert(pow16(4) == 65536) by {
        reveal_with_fuel(pow16, 5);
    }
    assert forall|i: int| 0 <= i < words.len() implies #[trigger] dumped_words(hexdump(bytes))[i]
        == words[i] by {
        lemma_hex_round_trip(words[i] as nat, 4);
    }
}

/// Renders a byte stream as a dump of 16-bit little-endian words: sixteen to
/// a line, joined by hyphens, every line closed by a newline. An empty stream
/// gives the line `<none>`.
pub fn to_hexdump(bytes: &[u8]) -> (text: String)
    ensures
        text@ == hexdump(bytes@),
        bytes@.len() == 0 ==> text@ == "<none>\n"@,
{
    if bytes.len() == 0 {
        return String::from_str("<none>\n");
    }
    let count: usize = bytes.len() / 2;
    let ghost words = le_words(bytes@);
    let mut text = String::new();
    let mut index: usize = 0;
    while index < count
        invariant
            index <= count,
            count == bytes@.len() / 2,
            bytes@.len() <= usize::MAX,
            words == le_words(bytes@),
            text@ == dump_cells(words, index as nat),
        decreases count - index,
    {
        let low: u8 = bytes[2 * index];
        let high: u8 = bytes[2 * index + 1];
        let word: u16 = low as u16 + 256 * (high as u16);
        push_hex(&mut text, word as u32, 4);
        if index % 16 == 15 || index + 1 == count {
            text.append("\n");
            proof {
                reveal_strlit("\n");
            }
        } else {
            text.append("-");
            proof {
                reveal_strlit("-");
            }
        }
        index = index + 1;
    }
    text
}

/// The name of the coarse state in the high nibble of a pair's high byte.
pub open spec fn coarse_state(high: u8) -> Seq<char> {
    let nibble = high / 16;
    if nibble == 1 {
        "ST_IDLE"@
    } else if nibble == 2 {
        "ST_CTRL"@
    } else if nibble == 4 {
        "ST_BULK"@
    } else if nibble == 8 {
        "ST_DUMP"@
    } else {
        "- XXX -"@
    }
}

/// The name of the control-phase state in the low nibble of a pair's high byte.
pub open spec fn control_state(high: u8) -> Seq<char> {
    let nibble = high % 16;
    if nibble == 0 {
        "CTL_DONE      "@
    } else if nibble == 1 {
        "CTL_SETUP_RX  "@
    } else if nibble == 2 {
        "CTL_SETUP_ACK "@
    } else if nibble == 3 {
        "CTL_DATA_TOK  "@
    } else if nibble == 4 {
        "CTL_DATO_RX   "@
    } else if nibble == 5 {
        "CTL_DATO_ACK  "@
    } else if nibble == 6 {
        "CTL_DATI_TX   "@
    } else if nibble == 7 {
        "CTL_DATI_ACK  "@
    } else if nibble == 8 {
        "CTL_STATUS_TOK"@
    } else if nibble == 9 {
        "CTL_STATUS_RX "@
    } else if nibble == 10 {
        "CTL_STATUS_TX "@
    } else if nibble == 11 {
        "CTL_STATUS_ACK"@
    } else {
        "- UNKNOWN -   "@
    }
}

/// The name of the bulk-phase state that a pair's low byte holds, one bit for
/// each state.
pub open spec fn bulk_state(low: u8) -> Seq<char> {
    if low == 0x01 {
        "BLK_IDLE    "@
    } else if low == 0x02 {
        "BLK_DATI_TX "@
    } else if low == 0x04 {
        "BLK_DATI_ZDP"@
    } else if low == 0x08 {
        "BLK_DATI_ACK"@
    } else if low == 0x10 {
        "BLK_DATO_RX "@
    } else if low == 0x20 {
        "BLK_DATO_ACK"@
    } else if low == 0x40 {
        "BLK_DATO_ERR"@
    } else if low == 0x80 {
        "BLK_DONE    "@
    } else {
        "- UNKNOWN - "@
    }
}

/// The state line of one byte pair of the trace.
pub open spec fn trace_line(seq: nat, low: u8, high: u8) -> Seq<char> {
    pad_left(decimal(seq), 5) + "  ->  { "@ + coarse_state(high) + " : "@ + control_state(high)
        + " : "@ + bulk_state(low) + " }"@
}

/// The state lines of a trace: one for each full byte pair, numbered from zero.
pub open spec fn trace_lines(bytes: Seq<u8>) -> Seq<Seq<char>> {
    Seq::new(bytes.len() / 2, |i: int| trace_line(i as nat, bytes[2 * i], bytes[2 * i + 1]))
}

/// The name of the coarse state of a byte pair, from the high nibble of its
/// high byte.
pub fn coarse_state_name(high: u8) -> (name: &'static str)
    ensures
        name@ == coarse_state(high),
{
    let nibble: u8 = high / 16;
    if nibble == 1 {
        "ST_IDLE"
    } else if nibble == 2 {
        "ST_CTRL"
    } else if nibble == 4 {
        "ST_BULK"
    } else if nibble == 8 {
        "ST_DUMP"
    } else {
        "- XXX -"
    }
}

/// The name of the control-phase state of a byte pair, from the low nibble of
/// its high byte.
pub fn control_state_name(high: u8) -> (name: &'static str)
    ensures
        name@ == control_state(high),
{
    let nibble: u8 = high % 16;
    if nibble == 0 {
        "CTL_DONE      "
    } else if nibble == 1 {
        "CTL_SETUP_RX  "
    } else if nibble == 2 {
        "CTL_SETUP_ACK "
    } else if nibble == 3 {
        "CTL_DATA_TOK  "
    } else if nibble == 4 {
        "CTL_DATO_RX   "
    } else if nibble == 5 {
        "CTL_DATO_ACK  "
    } else if nibble == 6 {
        "CTL_DATI_TX   "
    } else if nibble == 7 {
        "CTL_DATI_ACK  "
    } else if nibble == 8 {
        "CTL_STATUS_TOK"
    } else if nibble == 9 {
        "CTL_STATUS_RX "
    } else if nibble == 10 {
        "CTL_STATUS_TX "
    } else if nibble == 11 {
        "CTL_STATUS_ACK"
    } else {
        "- UNKNOWN -   "
    }
}

/// The name of the bulk-phase state of a byte pair, from its low byte.
pub fn bulk_state_name(low: u8) -> (name: &'static str)
    ensures
        name@ == bulk_state(low),
{
    if low == 0x01 {
        "BLK_IDLE    "
    } else if low == 0x02 {
        "BLK_DATI_TX "
    } else if low == 0x04 {
        "BLK_DATI_ZDP"
    } else if low == 0x08 {
        "BLK_DATI_ACK"
    } else if low == 0x10 {
        "BLK_DATO_RX "
    } else if low == 0x20 {
        "BLK_DATO_ACK"
    } else if low == 0x40 {
        "BLK_DATO_ERR"
    } else if low == 0x80 {
        "BLK_DONE    "
    } else {
        "- UNKNOWN - "
    }
}

/// Decodes one byte pair of the trace into its state line.
pub fn to_state(seq: usize, lo: u8, hi: u8) -> (line: String)
    ensures
        line@ == trace_line(seq as nat, lo, hi),
{
    let mut line = String::new();
    push_decimal_padded(&mut line, seq, 5);
    line.append("  ->  { ");
    line.append(coarse_state_name(hi));
    line.append(" : ");
    line.append(control_state_name(hi));
    line.append(" : ");
    line.append(bulk_state_name(lo));
    line.append(" }");
    line
}

/// Decodes a trace into its state lines, one for each full byte pair.
pub fn decode_trace(bytes: &[u8]) -> (lines: Vec<String>)
    ensures
        lines@.len() == trace_lines(bytes@).len(),
        forall|i: int| 0 <= i < lines@.len() ==> (#[trigger] lines@[i])@ == trace_lines(bytes@)[i],
{
    let count: usize = bytes.len() / 2;
    let mut lines: Vec<String> = Vec::new();
    let mut index: usize = 0;
    while index < count
        invariant
            index <= count,
            count == bytes@.len() / 2,
            bytes@.len() <= usize::MAX,
            lines@.len() == index,
            forall|i: int|
                0 <= i < index ==> (#[trigger] lines@[i])@ == trace_line(
                    i as nat,
                    bytes@[2 * i],
                    bytes@[2 * i + 1],
                ),
        decreases count - index,
    {
        let line = to_state(index, bytes[2 * index], bytes[2 * index + 1]);
        lines.push(line);
        index = index + 1;
    }
    lines
}

/// Takes in the outcome of one read of the telemetry endpoint and says
/// whether another read is due. Bytes that arrived are added to what was
/// collected, and another read is due. A read that brought nothing ends the
/// stream. A read that failed ends the drain with its error, and what was
/// collected stays as it was.
pub fn drain_telemetry(collected: &mut Vec<u8>, outcome: TartResult<Vec<u8>>) -> (more: TartResult<
    bool,
>)
    ensures
        match outcome {
            Ok(bytes) => more == Ok::<bool, Error>(bytes@.len() > 0) && final(collected)@ == old(
                collected,
            )@ + bytes@,
            Err(error) => more == Err::<bool, Error>(error) && final(collected)@ == old(
                collected,
            )@,
        },
{
    match outcome {
        Ok(bytes) => {
            let mut bytes = bytes;
            let more = bytes.len() > 0;
            collected.append(&mut bytes);
            Ok(more)
        },
        Err(error) => Err(error),
    }
}

/// What to show for a drained trace: its dump, and above the first level of
/// verbosity its state lines.
pub fn tart_telemetry(bytes: &[u8], verbose: u8) -> (report: Report)
    ensures
        report.printed@ == hexdump(bytes@),
        verbose > 1 ==> report.logged@.len() == trace_lines(bytes@).len(),
        verbose > 1 ==> forall|i: int|
            0 <= i < report.logged@.len() ==> (#[trigger] report.logged@[i])@ == trace_lines(
                bytes@,
            )[i],
        verbose <= 1 ==> report.logged@.len() == 0,
{
    let printed = to_hexdump(bytes);
    let logged = if verbose > 1 {
        decode_trace(bytes)
    } else {
        Vec::new()
    };
    Report { printed, logged }
}

} // verus!
