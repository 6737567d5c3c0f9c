use rtmap::model::bitfield::{check_hex_mask, Bitfield};
use rtmap::repository::hrdf::HRDF;

#[test]
fn hex_mask_expands_to_four_days_per_digit() {
    assert_eq!(Bitfield::convert_hex_to_bits("F0"), "11110000");
    assert_eq!(Bitfield::convert_hex_to_bits("1a"), "00011010");
    assert_eq!(Bitfield::convert_hex_to_bits("C"), "1100");
}

#[test]
fn decoding_twice_gives_the_same_days() {
    let mask = "3fA09";
    let a = Bitfield::convert_hex_to_bits(mask);
    let b = Bitfield::convert_hex_to_bits(mask);
    assert_eq!(a, b);
    assert_eq!(a.len(), 4 * mask.len());
}

#[test]
fn empty_mask_gives_no_days() {
    assert_eq!(Bitfield::convert_hex_to_bits(""), "");
}

#[test]
fn mask_check_rejects_non_hex() {
    assert!(check_hex_mask("09afAF"));
    assert!(!check_hex_mask("0G"));
}

#[test]
fn day_of_operation_counts_two_leading_days() {
    let b = Bitfield { id: 1, days: "00101".to_string() };
    assert!(!b.operates_on(0));
    assert!(b.operates_on(1));
    assert!(!b.operates_on(2));
    assert!(b.operates_on(3));
    assert!(!b.operates_on(100));
}

#[test]
fn retrieves_only_referenced_calendars() {
    let lines = vec![
        "000001 F0".to_string(),
        "000002 0F".to_string(),
        "000003 ZZ".to_string(),
        "000004 A".to_string(),
    ];
    let hrdf = HRDF { agency_id: "000881".to_string() };
    let got = hrdf.retrieve_bitfields(&lines, &vec![2, 3, 4]);
    assert_eq!(got.len(), 2);
    assert_eq!(got[0].id, 2);
    assert_eq!(got[0].days, "00001111");
    assert_eq!(got[1].id, 4);
    assert_eq!(got[1].days, "1010");
}
