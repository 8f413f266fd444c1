use driver::common::Error;
use driver::read_logger::{
    decode_compact, decode_verbose, pid_label_of, state_name_of, tart_logger, to_compact_state,
    to_first_state,
};
use driver::telemetry::{
    bulk_state_name, coarse_state_name, control_state_name, decode_trace, drain_telemetry,
    tart_telemetry, to_hexdump,
};

/// Reads a dump back: every cell of five characters is four digits and a separator.
fn words_of(dump: &str) -> Vec<u16> {
    let text = dump.as_bytes();
    let mut words = Vec::new();
    for cell in text.chunks(5) {
        let digits = std::str::from_utf8(&cell[0..4]).expect("a dump is ASCII");
        words.push(u16::from_str_radix(digits, 16).expect("a cell starts with four digits"));
    }
    words
}

#[test]
fn hexdump_of_nothing() {
    assert_eq!(to_hexdump(&[]), "<none>\n");
}

#[test]
fn hexdump_of_one_word() {
    assert_eq!(to_hexdump(&[0x34, 0x12]), "1234\n");
}

#[test]
fn hexdump_is_upper_case() {
    assert_eq!(to_hexdump(&[0xef, 0xcd, 0xab, 0x89]), "CDEF-89AB\n");
}

#[test]
fn hexdump_leaves_out_a_last_single_byte() {
    assert_eq!(to_hexdump(&[0x01, 0x00, 0x7f]), "0001\n");
    assert_eq!(to_hexdump(&[0x7f]), "");
}

#[test]
fn hexdump_of_a_full_line() {
    let bytes: Vec<u8> = (0u8..32).collect();
    assert_eq!(
        to_hexdump(&bytes),
        "0100-0302-0504-0706-0908-0B0A-0D0C-0F0E-1110-1312-1514-1716-1918-1B1A-1D1C-1F1E\n"
    );
}

#[test]
fn hexdump_breaks_after_sixteen_words() {
    let bytes: Vec<u8> = (0u8..36).collect();
    assert_eq!(
        to_hexdump(&bytes),
        "0100-0302-0504-0706-0908-0B0A-0D0C-0F0E-1110-1312-1514-1716-1918-1B1A-1D1C-1F1E\n\
         2120-2322\n"
    );
}

#[test]
fn hexdump_read_back_gives_the_words() {
    let bytes: Vec<u8> = (0u16..200).map(|i| (i * 37 % 256) as u8).collect();
    let words: Vec<u16> =
        bytes.chunks(2).map(|pair| u16::from(pair[0]) | u16::from(pair[1]) << 8).collect();
    assert_eq!(words.len(), 100);
    assert_eq!(words_of(&to_hexdump(&bytes)), words);
    assert_eq!(words_of(&to_hexdump(&[0xff, 0xff, 0x00, 0x00])), vec![0xffff, 0x0000]);
}

#[test]
fn trace_of_an_idle_pair() {
    assert_eq!(
        driver::telemetry::to_state(0, 0x01, 0x10),
        "    0  ->  { ST_IDLE : CTL_DONE       : BLK_IDLE     }"
    );
}

#[test]
fn trace_names_every_coarse_state() {
    let state = |hi: u8| driver::telemetry::to_state(7, 0x01, hi)[13..20].to_string();
    assert_eq!(state(0x10), "ST_IDLE");
    assert_eq!(state(0x20), "ST_CTRL");
    assert_eq!(state(0x40), "ST_BULK");
    assert_eq!(state(0x80), "ST_DUMP");
    assert_eq!(state(0x00), "- XXX -");
    assert_eq!(state(0x30), "- XXX -");
    assert_eq!(state(0xF0), "- XXX -");
}

#[test]
fn trace_names_every_control_state() {
    let state = |hi: u8| driver::telemetry::to_state(7, 0x01, hi)[23..37].to_string();
    assert_eq!(state(0x10), "CTL_DONE      ");
    assert_eq!(state(0x11), "CTL_SETUP_RX  ");
    assert_eq!(state(0x12), "CTL_SETUP_ACK ");
    assert_eq!(state(0x13), "CTL_DATA_TOK  ");
    assert_eq!(state(0x14), "CTL_DATO_RX   ");
    assert_eq!(state(0x15), "CTL_DATO_ACK  ");
    assert_eq!(state(0x16), "CTL_DATI_TX   ");
    assert_eq!(state(0x17), "CTL_DATI_ACK  ");
    assert_eq!(state(0x18), "CTL_STATUS_TOK");
    assert_eq!(state(0x19), "CTL_STATUS_RX ");
    assert_eq!(state(0x1a), "CTL_STATUS_TX ");
    assert_eq!(state(0x1b), "CTL_STATUS_ACK");
    assert_eq!(state(0x1c), "- UNKNOWN -   ");
    assert_eq!(state(0x1f), "- UNKNOWN -   ");
}

#[test]
fn trace_names_every_bulk_state() {
    let state = |lo: u8| driver::telemetry::to_state(7, lo, 0x40)[40..52].to_string();
    assert_eq!(state(0x01), "BLK_IDLE    ");
    assert_eq!(state(0x02), "BLK_DATI_TX ");
    assert_eq!(state(0x04), "BLK_DATI_ZDP");
    assert_eq!(state(0x08), "BLK_DATI_ACK");
    assert_eq!(state(0x10), "BLK_DATO_RX ");
    assert_eq!(state(0x20), "BLK_DATO_ACK");
    assert_eq!(state(0x40), "BLK_DATO_ERR");
    assert_eq!(state(0x80), "BLK_DONE    ");
    assert_eq!(state(0x00), "- UNKNOWN - ");
    assert_eq!(state(0x03), "- UNKNOWN - ");
    assert_eq!(state(0xff), "- UNKNOWN - ");
}

#[test]
fn trace_numbers_are_set_to_the_right() {
    assert!(driver::telemetry::to_state(42, 0x01, 0x10).starts_with("   42  ->  { "));
    assert!(driver::telemetry::to_state(99999, 0x01, 0x10).starts_with("99999  ->  { "));
    assert!(driver::telemetry::to_state(123456, 0x01, 0x10).starts_with("123456  ->  { "));
}

#[test]
fn decode_trace_takes_the_low_byte_first() {
    assert_eq!(
        decode_trace(&[0x01, 0x10, 0x10, 0x44, 0x80]),
        vec![
            "    0  ->  { ST_IDLE : CTL_DONE       : BLK_IDLE     }",
            "    1  ->  { ST_BULK : CTL_DATO_RX    : BLK_DATO_RX  }",
        ]
    );
    assert_eq!(decode_trace(&[]), Vec::<String>::new());
    assert_eq!(decode_trace(&[0x01]), Vec::<String>::new());
}

#[test]
fn verbose_line_of_an_idle_word() {
    assert_eq!(
        driver::read_logger::to_state(0, 0x0010_0000, 0xFFFF_FFFF),
        "@    0  -> 0x00100000 { SOF =    1 : ST_IDLE :  n/a  :    : 0 : 0 : 0 }"
    );
}

#[test]
fn verbose_line_shows_every_field() {
    assert_eq!(
        driver::read_logger::to_state(12, 0x7FFC_BA9C, 0),
        "@   12  -> 0x7FFCBA9C { SOF = 2047 : ST_SEND :  IN   : RX : A : B : C }"
    );
    assert_eq!(
        driver::read_logger::to_state(3, 0x8001_23D5, 0),
        "@    3  -> 0x800123D5 { SOF =    0 : ST_WAIT : SETUP :    : 3 : 2 : 1 }"
    );
}

#[test]
fn verbose_line_names_every_state() {
    let state = |val: u32| driver::read_logger::to_state(0, val, 0xFFFF_FFFF)[37..44].to_string();
    assert_eq!(state(0), "ST_IDLE");
    assert_eq!(state(1), "ST_RECV");
    assert_eq!(state(2), "ST_RESP");
    assert_eq!(state(3), "ST_DROP");
    assert_eq!(state(4), "ST_SEND");
    assert_eq!(state(5), "ST_WAIT");
    assert_eq!(state(6), "- XXX -");
    // The bit above the state is the receive flag, no part of the state.
    assert_eq!(state(8), "ST_IDLE");
    assert_eq!(state(12), "ST_SEND");
}

#[test]
fn verbose_line_names_every_packet_id() {
    let pid = |val: u32| driver::read_logger::to_state(0, val, 0xFFFF_FFFF)[47..52].to_string();
    let labels = [
        " n/a ", " OUT ", " ACK ", "DATA0", "PING ", " SOF ", "NYET ", "DATA2", "SPLIT", " IN  ",
        " NAK ", "DATA1", " ERR ", "SETUP", "STALL", "MDATA",
    ];
    for (value, label) in labels.iter().enumerate() {
        assert_eq!(pid((value as u32) << 4), *label);
    }
}

#[test]
fn verbose_line_blanks_a_repeated_state() {
    assert_eq!(
        driver::read_logger::to_state(1, 0x0020_0004, 0x0010_0004),
        "@    1  -> 0x00200004 { SOF =    2 :         :  n/a  :    : 0 : 0 : 0 }"
    );
    // Only the three state bits are compared.
    assert_eq!(
        driver::read_logger::to_state(1, 0x0000_0004, 0xFFFF_FFFC),
        "@    1  -> 0x00000004 { SOF =    0 :         :  n/a  :    : 0 : 0 : 0 }"
    );
    assert_eq!(
        driver::read_logger::to_state(1, 0x0000_0004, 0x0000_0005),
        "@    1  -> 0x00000004 { SOF =    0 : ST_SEND :  n/a  :    : 0 : 0 : 0 }"
    );
}

#[test]
fn decode_verbose_blanks_the_second_of_two_equal_states() {
    let lines = decode_verbose(&[
        0x04, 0x00, 0x10, 0x00, // ST_SEND
        0x04, 0x00, 0x20, 0x00, // ST_SEND again
        0x05, 0x00, 0x30, 0x00, // ST_WAIT
        0x05, 0x00, 0x40, 0x00, // ST_WAIT again
        0x04, 0x00, 0x50, 0x00, // ST_SEND
        0xff, 0xff, // no full word
    ]);
    assert_eq!(
        lines,
        vec![
            "@    0  -> 0x00100004 { SOF =    1 : ST_SEND :  n/a  :    : 0 : 0 : 0 }",
            "@    1  -> 0x00200004 { SOF =    2 :         :  n/a  :    : 0 : 0 : 0 }",
            "@    2  -> 0x00300005 { SOF =    3 : ST_WAIT :  n/a  :    : 0 : 0 : 0 }",
            "@    3  -> 0x00400005 { SOF =    4 :         :  n/a  :    : 0 : 0 : 0 }",
            "@    4  -> 0x00500004 { SOF =    5 : ST_SEND :  n/a  :    : 0 : 0 : 0 }",
        ]
    );
}

#[test]
fn decode_verbose_names_the_state_of_the_first_word() {
    assert_eq!(
        decode_verbose(&[0x00, 0x00, 0x00, 0x00]),
        vec!["@    0  -> 0x00000000 { SOF =    0 : ST_IDLE :  n/a  :    : 0 : 0 : 0 }"]
    );
    assert_eq!(
        decode_verbose(&[0x07, 0x00, 0x00, 0x00]),
        vec!["@    0  -> 0x00000007 { SOF =    0 : - XXX - :  n/a  :    : 0 : 0 : 0 }"]
    );
    assert_eq!(decode_verbose(&[0x00, 0x00, 0x00]), Vec::<String>::new());
}

#[test]
fn decode_verbose_names_the_state_of_every_first_word() {
    let names = ["ST_IDLE", "ST_RECV", "ST_RESP", "ST_DROP", "ST_SEND", "ST_WAIT", "- XXX -", "- XXX -"];
    for (state, name) in names.iter().enumerate() {
        let lines = decode_verbose(&[state as u8, 0x00, 0x00, 0x00, state as u8, 0x00, 0x00, 0x00]);
        assert_eq!(lines.len(), 2);
        assert_eq!(&lines[0][37..44], *name);
        assert_eq!(&lines[1][37..44], "       ");
    }
}

#[test]
fn first_verbose_line_names_its_state() {
    assert_eq!(
        to_first_state(0xFFFF_FFFF),
        "@    0  -> 0xFFFFFFFF { SOF = 2047 : - XXX - : MDATA : RX : F : F : F }"
    );
    assert_eq!(
        to_first_state(0x0010_0004),
        "@    0  -> 0x00100004 { SOF =    1 : ST_SEND :  n/a  :    : 0 : 0 : 0 }"
    );
}

#[test]
fn logger_names_the_state_of_a_first_word_with_all_state_bits_set() {
    let report = tart_logger(&[0x07, 0x00, 0x00, 0x00], 2);
    assert_eq!(
        report.logged,
        vec!["@    0  -> 0x00000007 { SOF =    0 : - XXX - :  n/a  :    : 0 : 0 : 0 }"]
    );
}

#[test]
fn compact_line_of_an_idle_word() {
    assert_eq!(
        to_compact_state(0, 0x0010_0000),
        "@    0  -> { ST_IDLE : SOF =    1 : 0 : 0 : 0 : 0 }"
    );
}

#[test]
fn compact_line_of_a_sending_word() {
    assert_eq!(
        to_compact_state(1, 0x0010_0004),
        "@    1  -> { ST_SEND : SOF =    1 : 0 : 0 : 0 : 0 }"
    );
}

#[test]
fn compact_line_reads_four_state_bits() {
    assert_eq!(
        to_compact_state(2, 0x7FFC_BA95),
        "@    2  -> { ST_WAIT : SOF = 2047 : 9 : A : B : C }"
    );
    assert_eq!(
        to_compact_state(2, 0x0000_000C),
        "@    2  -> { - XXX - : SOF =    0 : 0 : 0 : 0 : 0 }"
    );
}

#[test]
fn decode_compact_takes_the_high_byte_first_and_names_every_state() {
    assert_eq!(
        decode_compact(&[0x00, 0x10, 0x00, 0x00, 0x00, 0x10, 0x00, 0x04, 0x00, 0x20, 0x00, 0x04, 0x01]),
        vec![
            "@    0  -> { ST_IDLE : SOF =    1 : 0 : 0 : 0 : 0 }",
            "@    1  -> { ST_SEND : SOF =    1 : 0 : 0 : 0 : 0 }",
            "@    2  -> { ST_SEND : SOF =    2 : 0 : 0 : 0 : 0 }",
        ]
    );
    assert_eq!(decode_compact(&[]), Vec::<String>::new());
}

#[test]
fn drain_collects_until_a_read_brings_nothing() {
    let mut collected = Vec::new();
    assert_eq!(drain_telemetry(&mut collected, Ok(vec![1, 2, 3])), Ok(true));
    assert_eq!(drain_telemetry(&mut collected, Ok(vec![4])), Ok(true));
    assert_eq!(collected, vec![1, 2, 3, 4]);
    assert_eq!(drain_telemetry(&mut collected, Ok(vec![])), Ok(false));
    assert_eq!(collected, vec![1, 2, 3, 4]);
}

#[test]
fn drain_of_a_silent_endpoint() {
    let mut collected = Vec::new();
    assert_eq!(drain_telemetry(&mut collected, Ok(vec![])), Ok(false));
    assert_eq!(collected, Vec::<u8>::new());
}

#[test]
fn drain_ends_with_the_error_of_a_failed_read() {
    let mut collected = Vec::new();
    assert_eq!(drain_telemetry(&mut collected, Err(Error::Timeout)), Err(Error::Timeout));
    assert_eq!(collected, Vec::<u8>::new());
    assert_eq!(drain_telemetry(&mut collected, Ok(vec![7, 8])), Ok(true));
    assert_eq!(drain_telemetry(&mut collected, Err(Error::NoDevice)), Err(Error::NoDevice));
    assert_eq!(drain_telemetry(&mut collected, Err(Error::Io)), Err(Error::Io));
    assert_eq!(collected, vec![7, 8]);
}

#[test]
fn telemetry_report_by_verbosity() {
    let bytes = [0x01, 0x10, 0x02, 0x21];
    let quiet = tart_telemetry(&bytes, 1);
    assert_eq!(quiet.printed, "1001-2102\n");
    assert_eq!(quiet.logged, Vec::<String>::new());
    assert_eq!(tart_telemetry(&bytes, 0).logged, Vec::<String>::new());
    let loud = tart_telemetry(&bytes, 2);
    assert_eq!(loud.printed, "1001-2102\n");
    assert_eq!(
        loud.logged,
        vec![
            "    0  ->  { ST_IDLE : CTL_DONE       : BLK_IDLE     }",
            "    1  ->  { ST_CTRL : CTL_SETUP_RX   : BLK_DATI_TX  }",
        ]
    );
    assert_eq!(tart_telemetry(&[], 2).printed, "<none>\n");
}

#[test]
fn logger_report_by_verbosity() {
    let bytes = [0x04, 0x00, 0x10, 0x00, 0x14, 0x00, 0x10, 0x00];
    let quiet = tart_logger(&bytes, 1);
    assert_eq!(quiet.printed, "0004-0010-0014-0010\n");
    assert_eq!(quiet.logged, Vec::<String>::new());
    let loud = tart_logger(&bytes, 2);
    assert_eq!(loud.printed, "0004-0010-0014-0010\nLength: 8\n");
    assert_eq!(
        loud.logged,
        vec![
            "@    0  -> 0x00100004 { SOF =    1 : ST_SEND :  n/a  :    : 0 : 0 : 0 }",
            "@    1  -> 0x00100014 { SOF =    1 :         :  OUT  :    : 0 : 0 : 0 }",
        ]
    );
    assert_eq!(tart_logger(&[], 3).printed, "<none>\nLength: 0\n");
    assert_eq!(tart_logger(&[], 0).printed, "<none>\n");
}

#[test]
fn state_names_of_the_trace() {
    assert_eq!(coarse_state_name(0x10), "ST_IDLE");
    assert_eq!(coarse_state_name(0x1f), "ST_IDLE");
    assert_eq!(coarse_state_name(0x00), "- XXX -");
    assert_eq!(control_state_name(0x10), "CTL_DONE      ");
    assert_eq!(control_state_name(0xfb), "CTL_STATUS_ACK");
    assert_eq!(control_state_name(0x0c), "- UNKNOWN -   ");
    assert_eq!(bulk_state_name(0x01), "BLK_IDLE    ");
    assert_eq!(bulk_state_name(0x80), "BLK_DONE    ");
    assert_eq!(bulk_state_name(0x81), "- UNKNOWN - ");
}

#[test]
fn state_names_of_the_logger() {
    assert_eq!(state_name_of(0x0010_0000 & 0x0f), "ST_IDLE");
    assert_eq!(state_name_of(0x0010_0004 & 0x0f), "ST_SEND");
    assert_eq!(state_name_of(5), "ST_WAIT");
    assert_eq!(state_name_of(6), "- XXX -");
    assert_eq!(state_name_of(u32::MAX), "- XXX -");
    assert_eq!(pid_label_of(0x0), " n/a ");
    assert_eq!(pid_label_of(0xf), "MDATA");
    assert_eq!(pid_label_of(0x10), " --- ");
}
