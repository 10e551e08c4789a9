use lib_x86::types::memory::ByteUnits;

#[test]
fn num_bytes_multiplies_by_the_unit() {
    assert_eq!(ByteUnits::Bytes(7).num_bytes(), 7);
    assert_eq!(ByteUnits::KiloBytes(3).num_bytes(), 3_000);
    assert_eq!(ByteUnits::KibiBytes(512).num_bytes(), 512 * 1024);
    assert_eq!(ByteUnits::MegaBytes(2).num_bytes(), 2_000_000);
    assert_eq!(ByteUnits::MebiBytes(1).num_bytes(), 1_048_576);
    assert_eq!(ByteUnits::GigaBytes(5).num_bytes(), 5_000_000_000);
    assert_eq!(ByteUnits::GibiBytes(16).num_bytes(), 17_179_869_184);
    assert_eq!(ByteUnits::GibiBytes(0).num_bytes(), 0);
}

#[test]
fn to_bytes_keeps_the_amount() {
    assert!(matches!(ByteUnits::Bytes(9).to_bytes(), ByteUnits::Bytes(9)));
    assert!(matches!(ByteUnits::KiloBytes(9).to_bytes(), ByteUnits::Bytes(9_000)));
    assert!(matches!(ByteUnits::KibiBytes(9).to_bytes(), ByteUnits::Bytes(9_216)));
    assert!(matches!(ByteUnits::MegaBytes(9).to_bytes(), ByteUnits::Bytes(9_000_000)));
    assert!(matches!(ByteUnits::MebiBytes(9).to_bytes(), ByteUnits::Bytes(9_437_184)));
    assert!(matches!(ByteUnits::GigaBytes(9).to_bytes(), ByteUnits::Bytes(9_000_000_000)));
    assert!(matches!(ByteUnits::GibiBytes(9).to_bytes(), ByteUnits::Bytes(9_663_676_416)));
}

#[test]
fn checked_num_bytes_reports_what_does_not_fit() {
    assert_eq!(ByteUnits::KibiBytes(512).checked_num_bytes(), Some(524_288));
    assert_eq!(ByteUnits::Bytes(u64::MAX).checked_num_bytes(), Some(u64::MAX));
    assert_eq!(ByteUnits::KiloBytes(u64::MAX).checked_num_bytes(), None);
    assert_eq!(ByteUnits::GibiBytes(1 << 34).checked_num_bytes(), None);
    assert_eq!(ByteUnits::GibiBytes((1 << 34) - 1).checked_num_bytes(), Some(u64::MAX - (1 << 30) + 1));
}
