use lib_x86::utils::{dump_hex, dump_hex_unpadded, dump_truncated_hex};

fn row_of(bytes: &[u8]) -> String {
    let cells: Vec<String> = bytes.iter().map(|b| format!("{:02X}", b)).collect();
    format!("\t{}\n", cells.join(" "))
}

#[test]
fn dump_of_nothing_is_the_two_brackets() {
    assert_eq!(dump_hex(&[]), "[\n]");
    assert_eq!(dump_hex_unpadded(&[]), "[\n]");
    assert_eq!(dump_truncated_hex(&[]), "[\n]");
}

#[test]
fn dump_prints_upper_case_hex_pairs() {
    assert_eq!(dump_hex_unpadded(&[0x00, 0x0A, 0xA0, 0xFF, 0x9C]), "[\n\t00 0A A0 FF 9C\n]");
    assert_eq!(dump_hex_unpadded(&[0x10]), "[\n\t10\n]");
    let all: Vec<u8> = (0..=255u8).collect();
    let mut expected = String::from("[\n");
    for chunk in all.chunks(64) {
        expected.push_str(&row_of(chunk));
    }
    expected.push(']');
    assert_eq!(dump_hex_unpadded(&all), expected);
    assert_eq!(dump_hex(&all), expected);
}

#[test]
fn dump_breaks_rows_after_64_bytes() {
    let data = [0x5Au8; 65];
    let expected = format!("[\n{}{}]", row_of(&[0x5A; 64]), row_of(&[0x5A]));
    assert_eq!(dump_hex_unpadded(&data), expected);
    let mut last = vec![0x5Au8];
    last.extend_from_slice(&[0u8; 63]);
    let expected = format!("[\n{}{}]", row_of(&[0x5A; 64]), row_of(&last));
    assert_eq!(dump_hex(&data), expected);
    assert_eq!(dump_truncated_hex(&data), expected);
}

#[test]
fn dump_pads_with_zero_bytes() {
    let mut row = vec![1u8, 2, 3];
    row.extend_from_slice(&[0u8; 61]);
    assert_eq!(dump_hex(&[1, 2, 3]), format!("[\n{}]", row_of(&row)));
    assert_eq!(dump_hex(&[7u8; 64]), format!("[\n{}]", row_of(&[7u8; 64])));
}

#[test]
fn large_buffers_are_summarised() {
    let data = vec![0xEEu8; 4097];
    assert_eq!(dump_truncated_hex(&data), "[\n\t < 4097 bytes >\n]");
    let data = vec![0u8; 1_048_576];
    assert_eq!(dump_truncated_hex(&data), "[\n\t < 1048576 bytes >\n]");
    let data = vec![0x01u8; 4096];
    let mut expected = String::from("[\n");
    for _ in 0..64 {
        expected.push_str(&row_of(&[1u8; 64]));
    }
    expected.push(']');
    assert_eq!(dump_truncated_hex(&data), expected);
}
