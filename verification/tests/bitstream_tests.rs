use vlfd_rs::bitstream::decode_bitstream;
use vlfd_rs::bitstream::decode_bitstream_lines;
use vlfd_rs::bitstream::remap_hex;
use vlfd_rs::bitstream::split_lines;
use vlfd_rs::error::BitstreamFault;
use vlfd_rs::error::Error;

fn lines(parts: &[&str]) -> Vec<Vec<u8>> {
    parts.iter().map(|part| part.as_bytes().to_vec()).collect()
}

#[test]
fn underscore_terminates_each_word() {
    let decoded = decode_bitstream_lines(&lines(&["1a_2b_"])).unwrap();
    assert_eq!(decoded, vec![0x1a, 0x2b]);
}

#[test]
fn line_ending_mid_word_flushes_accumulator() {
    let decoded = decode_bitstream_lines(&lines(&["1a2b"])).unwrap();
    assert_eq!(decoded, vec![0x1a2b]);
}

#[test]
fn space_truncates_rest_of_line() {
    let decoded = decode_bitstream_lines(&lines(&["1a z"])).unwrap();
    assert_eq!(decoded, vec![0x1a]);
}

#[test]
fn tab_truncates_rest_of_line() {
    let decoded = decode_bitstream_lines(&lines(&["ff\tzz"])).unwrap();
    assert_eq!(decoded, vec![0xff]);
}

#[test]
fn empty_input_is_invalid() {
    let err = decode_bitstream_lines(&lines(&[])).unwrap_err();
    assert_eq!(err, Error::InvalidBitfile(BitstreamFault::Empty));
}

#[test]
fn blank_line_only_is_invalid() {
    let err = decode_bitstream_lines(&lines(&[""])).unwrap_err();
    assert_eq!(err, Error::InvalidBitfile(BitstreamFault::Empty));
}

#[test]
fn non_hex_byte_is_invalid() {
    let err = decode_bitstream_lines(&lines(&["1g"])).unwrap_err();
    assert_eq!(err, Error::InvalidBitfile(BitstreamFault::NonHexByte));
}

#[test]
fn words_concatenate_across_lines() {
    let decoded = decode_bitstream_lines(&lines(&["1a_2b_", "3c", "4d_"])).unwrap();
    assert_eq!(decoded, vec![0x1a, 0x2b, 0x3c, 0x4d]);
}

#[test]
fn underscore_without_digits_flushes_zero_word() {
    let decoded = decode_bitstream_lines(&lines(&["__"])).unwrap();
    assert_eq!(decoded, vec![0x0000, 0x0000]);
}

#[test]
fn upper_and_lower_case_digits_decode_alike() {
    let decoded = decode_bitstream_lines(&lines(&["AbCd_ef01_"])).unwrap();
    assert_eq!(decoded, vec![0xabcd, 0xef01]);
}

#[test]
fn split_lines_handles_terminators() {
    assert_eq!(split_lines(&b"ab\ncd".to_vec()), vec![b"ab".to_vec(), b"cd".to_vec()]);
    assert_eq!(split_lines(&b"ab\r\ncd\r\n".to_vec()), vec![b"ab".to_vec(), b"cd".to_vec()]);
    assert_eq!(split_lines(&b"".to_vec()), Vec::<Vec<u8>>::new());
    assert_eq!(split_lines(&b"\n".to_vec()), vec![b"".to_vec()]);
    assert_eq!(split_lines(&b"\n\n".to_vec()), vec![b"".to_vec(), b"".to_vec()]);
}

#[test]
fn decode_bitstream_splits_text_itself() {
    let decoded = decode_bitstream(&b"1a_2b_\n3c\r\n4d_".to_vec()).unwrap();
    assert_eq!(decoded, vec![0x1a, 0x2b, 0x3c, 0x4d]);
}

#[test]
fn decode_bitstream_rejects_empty_text() {
    let err = decode_bitstream(&b"".to_vec()).unwrap_err();
    assert_eq!(err, Error::InvalidBitfile(BitstreamFault::Empty));
}

#[test]
fn decode_bitstream_rejects_stray_punctuation() {
    let err = decode_bitstream(&b"1a-2b\n".to_vec()).unwrap_err();
    assert_eq!(err, Error::InvalidBitfile(BitstreamFault::NonHexByte));
}

#[test]
fn remap_hex_covers_all_ranges() {
    assert_eq!(remap_hex(b'0'), Some(0));
    assert_eq!(remap_hex(b'9'), Some(9));
    assert_eq!(remap_hex(b'A'), Some(10));
    assert_eq!(remap_hex(b'F'), Some(15));
    assert_eq!(remap_hex(b'a'), Some(10));
    assert_eq!(remap_hex(b'f'), Some(15));
    assert_eq!(remap_hex(b'g'), None);
    assert_eq!(remap_hex(b'_'), None);
    assert_eq!(remap_hex(b' '), None);
}
