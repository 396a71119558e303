use apoll::ids::format_id;
use apoll::ids::parse_id_str;

#[test]
fn formats_in_canonical_groups() {
    assert_eq!(
        format_id(0xa1a2a3a4_b1b2_c1c2_d1d2_d3d4d5d6d7d8),
        "a1a2a3a4-b1b2-c1c2-d1d2-d3d4d5d6d7d8"
    );
    assert_eq!(format_id(0), "00000000-0000-0000-0000-000000000000");
    assert_eq!(format_id(u128::MAX), "ffffffff-ffff-ffff-ffff-ffffffffffff");
}

#[test]
fn parses_its_own_output() {
    for id in [0u128, 1, 0xdeadbeef, u128::MAX, 0xa1a2a3a4_b1b2_c1c2_d1d2_d3d4d5d6d7d8] {
        assert_eq!(parse_id_str(&format_id(id)), Some(id));
    }
}

#[test]
fn parses_either_letter_case() {
    assert_eq!(
        parse_id_str("A1A2A3A4-B1B2-C1C2-D1D2-D3D4D5D6D7D8"),
        Some(0xa1a2a3a4_b1b2_c1c2_d1d2_d3d4d5d6d7d8)
    );
}

#[test]
fn rejects_ill_formed_text() {
    assert_eq!(parse_id_str(""), None);
    assert_eq!(parse_id_str("not-a-uuid"), None);
    assert_eq!(parse_id_str("a1a2a3a4b1b2c1c2d1d2d3d4d5d6d7d8"), None);
    assert_eq!(parse_id_str("a1a2a3a4-b1b2-c1c2-d1d2-d3d4d5d6d7d"), None);
    assert_eq!(parse_id_str("a1a2a3a4-b1b2-c1c2-d1d2-d3d4d5d6d7d8f"), None);
    assert_eq!(parse_id_str("g1a2a3a4-b1b2-c1c2-d1d2-d3d4d5d6d7d8"), None);
    assert_eq!(parse_id_str("a1a2a3a4_b1b2_c1c2_d1d2_d3d4d5d6d7d8"), None);
    assert_eq!(parse_id_str("a1a2a3a4-b1b2-c1c2-d1d2-d3d4d5d6d7dé"), None);
}
