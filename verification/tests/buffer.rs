use rustypwn::io::buffer::Buffer;
use rustypwn::io::error::ErrorKind;

fn buffer_of(bytes: &[u8]) -> Buffer {
    let mut buf = Buffer::default();
    buf.append(&mut bytes.to_vec());
    buf
}

#[test]
fn default_buffer_is_empty() {
    let buf = Buffer::default();
    assert_eq!(buf.len(), 0);
    assert_eq!(buf.as_slice(), &[] as &[u8]);
}

#[test]
fn append_adds_at_the_tail_and_drains_its_argument() {
    let mut buf = buffer_of(b"ab");
    let mut more = b"cd".to_vec();
    buf.append(&mut more);
    assert_eq!(buf.as_slice(), b"abcd");
    assert!(more.is_empty());
    assert_eq!(buf.len(), 4);
}

#[test]
fn prepend_adds_at_the_head_and_keeps_its_argument() {
    let mut buf = buffer_of(b"cd");
    let mut head = b"ab".to_vec();
    buf.prepend(&mut head);
    assert_eq!(buf.as_slice(), b"abcd");
    assert_eq!(head, b"ab".to_vec());
}

#[test]
fn get_exact_takes_the_head() {
    let mut buf = Buffer::default();
    buf.append(&mut vec![1, 2, 3]);
    assert_eq!(buf.get(2, true), Some(vec![1, 2]));
    assert_eq!(buf.as_slice(), &[3]);
}

#[test]
fn get_short_and_not_exact_takes_everything() {
    let mut buf = buffer_of(&[7, 8, 9]);
    assert_eq!(buf.get(5, false), Some(vec![7, 8, 9]));
    assert_eq!(buf.len(), 0);
}

#[test]
fn get_short_and_exact_takes_nothing() {
    let mut buf = buffer_of(&[7, 8, 9]);
    assert_eq!(buf.get(5, true), None);
    assert_eq!(buf.as_slice(), &[7, 8, 9]);
}

#[test]
fn get_of_the_whole_length_empties_the_buffer() {
    let mut buf = buffer_of(&[7, 8, 9]);
    assert_eq!(buf.get(3, true), Some(vec![7, 8, 9]));
    assert_eq!(buf.len(), 0);
    let mut buf = buffer_of(&[7, 8, 9]);
    assert_eq!(buf.get(3, false), Some(vec![7, 8, 9]));
    assert_eq!(buf.len(), 0);
}

#[test]
fn get_on_an_empty_buffer_gives_nothing() {
    let mut buf = Buffer::default();
    assert_eq!(buf.get(4, false), None);
    assert_eq!(buf.get(4, true), None);
    assert_eq!(buf.len(), 0);
}

#[test]
fn get_of_no_bytes_is_always_satisfied() {
    let mut buf = Buffer::default();
    assert_eq!(buf.get(0, true), Some(vec![]));
    assert_eq!(buf.get(0, false), Some(vec![]));
    let mut buf = buffer_of(b"xy");
    assert_eq!(buf.get(0, true), Some(vec![]));
    assert_eq!(buf.as_slice(), b"xy");
}

#[test]
fn bytes_are_handed_out_once_and_in_order() {
    let mut buf = buffer_of(b"hello world");
    let mut seen = Vec::new();
    seen.extend(buf.get(5, true).unwrap());
    seen.extend(buf.get(1, true).unwrap());
    seen.extend(buf.get(100, false).unwrap());
    assert_eq!(seen, b"hello world".to_vec());
    assert_eq!(buf.get(1, false), None);
}

#[test]
fn get_then_prepend_restores_the_buffer() {
    let mut buf = buffer_of(b"abcdef");
    let mut taken = buf.get(4, true).unwrap();
    buf.prepend(&mut taken);
    assert_eq!(buf.as_slice(), b"abcdef");
}

#[test]
fn get_until_takes_through_the_delimiter() {
    let mut buf = buffer_of(b"ab\n");
    assert_eq!(buf.get_until("\n").unwrap(), Some(b"ab\n".to_vec()));
    assert_eq!(buf.len(), 0);
    assert_eq!(buf.get_until("\n").unwrap(), None);
    assert_eq!(buf.len(), 0);
}

#[test]
fn get_until_leaves_what_follows_the_match() {
    let mut buf = buffer_of(b"one\ntwo\nthree");
    assert_eq!(buf.get_until("\n").unwrap(), Some(b"one\n".to_vec()));
    assert_eq!(buf.as_slice(), b"two\nthree");
    assert_eq!(buf.get_until("\n").unwrap(), Some(b"two\n".to_vec()));
    assert_eq!(buf.as_slice(), b"three");
    assert_eq!(buf.get_until("\n").unwrap(), None);
    assert_eq!(buf.as_slice(), b"three");
}

#[test]
fn get_until_without_a_match_changes_nothing() {
    let mut buf = buffer_of(b"no delimiter here");
    assert_eq!(buf.get_until("\n").unwrap(), None);
    assert_eq!(buf.as_slice(), b"no delimiter here");
}

#[test]
fn get_until_matches_a_regular_expression() {
    let mut buf = buffer_of(b"id=12345;rest");
    assert_eq!(buf.get_until("[0-9]+;").unwrap(), Some(b"id=12345;".to_vec()));
    assert_eq!(buf.as_slice(), b"rest");
}

#[test]
fn get_until_matches_raw_bytes() {
    let mut buf = buffer_of(&[0xff, 0xfe, 0x00, 0x41, 0x80]);
    assert_eq!(buf.get_until("(?-u)\\x00A").unwrap(), Some(vec![0xff, 0xfe, 0x00, 0x41]));
    assert_eq!(buf.as_slice(), &[0x80]);
}

#[test]
fn get_until_takes_the_first_match_only() {
    let mut buf = buffer_of(b"a> b> c");
    assert_eq!(buf.get_until("> ").unwrap(), Some(b"a> ".to_vec()));
    assert_eq!(buf.as_slice(), b"b> c");
}

#[test]
fn get_until_refuses_a_malformed_pattern() {
    let mut buf = buffer_of(b"abc(");
    let err = buf.get_until("(").unwrap_err();
    assert_eq!(err.kind, ErrorKind::Pattern);
    assert!(err.source.is_some());
    assert_eq!(buf.as_slice(), b"abc(");
}

#[test]
fn take_match_splits_at_the_end_of_the_match() {
    let mut buf = buffer_of(b"abcdef");
    assert_eq!(buf.take_match(Some(2)), Some(b"ab".to_vec()));
    assert_eq!(buf.as_slice(), b"cdef");
    assert_eq!(buf.take_match(None), None);
    assert_eq!(buf.as_slice(), b"cdef");
    assert_eq!(buf.take_match(Some(0)), Some(vec![]));
    assert_eq!(buf.as_slice(), b"cdef");
    assert_eq!(buf.take_match(Some(4)), Some(b"cdef".to_vec()));
    assert_eq!(buf.len(), 0);
}
