use lib::console::{console_buffer, UefiConsole};

#[test]
fn newline_goes_out_with_carriage_return() {
    assert_eq!(console_buffer('\n'), [0x0D, 0x0A, 0]);
}

#[test]
fn plain_character_goes_out_alone() {
    assert_eq!(console_buffer('A'), [0x41, 0, 0]);
    assert_eq!(console_buffer('é'), [0xE9, 0, 0]);
}

#[test]
fn character_beyond_sixteen_bits_is_cut() {
    assert_eq!(console_buffer('\u{1F600}'), [0xF600, 0, 0]);
}

#[test]
fn write_str_queues_one_buffer_per_character() {
    let mut console = UefiConsole::new();
    console.write_str("hi\n");
    let calls = console.take_pending();
    assert_eq!(calls, vec![[0x68, 0, 0], [0x69, 0, 0], [0x0D, 0x0A, 0]]);
    assert!(console.take_pending().is_empty());
}

#[test]
fn writes_in_two_parts_equal_one_write() {
    let mut split = UefiConsole::new();
    split.write_str("ab");
    split.write_str("c\n");
    let mut whole = UefiConsole::new();
    whole.write_str("abc\n");
    assert_eq!(split.take_pending(), whole.take_pending());
}

#[test]
fn empty_write_queues_nothing() {
    let mut console = UefiConsole::new();
    console.write_str("");
    assert!(console.take_pending().is_empty());
}

#[test]
fn pending_buffers_accumulate_until_taken() {
    let mut console = UefiConsole::new();
    console.write_str("a");
    console.write_str("b");
    assert_eq!(console.take_pending(), vec![[0x61, 0, 0], [0x62, 0, 0]]);
    console.write_str("c");
    assert_eq!(console.take_pending(), vec![[0x63, 0, 0]]);
}
