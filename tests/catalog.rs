use rtmap::model::types::ColorType;
use rtmap::repository::hrdf::HRDF;

fn hrdf() -> HRDF {
    HRDF { agency_id: "000881".to_string() }
}

#[test]
fn merges_name_and_colour_records() {
    let lines = vec![
        "0000001 K 1".to_string(),
        "0000001 N T T1      ".to_string(),
        "0000001 F 255 255 255".to_string(),
        "0000001 B 012 034 056".to_string(),
        "0000002 N T T2".to_string(),
        "0000003 N T 12".to_string(),
        "0000003 F 000 000 000".to_string(),
    ];
    let got = hrdf().get_lines(&lines);
    assert_eq!(got.len(), 3);
    assert_eq!(got[0].id, 1);
    assert_eq!(got[0].name, "T1");
    assert_eq!(got[0].color_type, ColorType::Light);
    assert_eq!(got[0].color, "012 034 056");
    assert_eq!(got[1].id, 2);
    assert_eq!(got[1].color_type, ColorType::Unknown);
    assert_eq!(got[1].color, "");
    assert_eq!(got[2].color_type, ColorType::Dark);
}

#[test]
fn other_records_end_a_line() {
    let lines = vec![
        "0000001 N T T1".to_string(),
        "0000001 L extra".to_string(),
        "0000001 F 255 255 255".to_string(),
    ];
    let got = hrdf().get_lines(&lines);
    assert_eq!(got.len(), 1);
    assert_eq!(got[0].color_type, ColorType::Unknown);
}

#[test]
fn selects_referenced_stop_coordinates() {
    let lines = vec![
        "8587057   6.142296  46.210212          Genève".to_string(),
        "8587058   6.150000  46.200000          Plainpalais".to_string(),
        "bad line".to_string(),
    ];
    let got = hrdf().retrieve_stops(&lines, &vec![8587058]);
    assert_eq!(got.len(), 1);
    assert_eq!(got[0].id, 8587058);
    assert_eq!(got[0].name, "Plainpalais");
}
