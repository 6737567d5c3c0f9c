use rtmap::model::clock::ClockTime;
use rtmap::model::line::TransportMode;
use rtmap::model::types::Direction;
use rtmap::repository::hrdf::{Fahrplan, DEFAULT_BITFIELD_ID, HRDF};
use rtmap::repository::records::RawFahrplanStop;
use rtmap::repository::trips::stop_sequence_identifier;

fn put(line: &mut Vec<char>, start: usize, text: &str) {
    for (i, c) in text.chars().enumerate() {
        while line.len() <= start + i {
            line.push(' ');
        }
        line[start + i] = c;
    }
}

fn fixed(parts: &[(usize, &str)]) -> String {
    let mut line: Vec<char> = Vec::new();
    for (start, text) in parts {
        put(&mut line, *start, text);
    }
    line.into_iter().collect()
}

fn header(number: &str, agency: &str) -> String {
    fixed(&[(0, "*Z"), (3, number), (10, agency), (19, "001")])
}

fn stop_line(id: i32, arrival: &str, departure: &str) -> String {
    fixed(&[(0, &format!("{:07}", id)), (8, "Stop name"), (30, arrival), (37, departure)])
}

fn journey(number: &str, agency: &str, stops: &[(i32, &str, &str)], with_line: bool) -> Vec<String> {
    let mut lines = vec![
        header(number, agency),
        fixed(&[(0, "*G"), (3, "B"), (7, "8587057"), (15, "8587058")]),
        fixed(&[(0, "*A VE"), (6, "8587057"), (14, "8587058"), (22, "000012")]),
    ];
    if with_line {
        lines.push(fixed(&[(0, "*L"), (4, "0000015"), (12, "8587057"), (20, "8587058")]));
    }
    lines.push(fixed(&[(0, "*R"), (3, "H"), (6, "000001"), (13, "8587057"), (21, "8587058")]));
    for (id, a, d) in stops {
        lines.push(stop_line(*id, a, d));
    }
    lines
}

fn hrdf() -> HRDF {
    HRDF { agency_id: "000881".to_string() }
}

fn assemble(lines: &[String]) -> Vec<Fahrplan> {
    hrdf().get_fahrplans(&lines.to_vec())
}

fn hm(h: u32, m: u32, s: u32) -> ClockTime {
    ClockTime::from_hms(h, m, s).unwrap()
}

#[test]
fn assembles_a_complete_journey() {
    let lines = journey("000123", "000881", &[(1, "", "00800"), (2, "00805", "00806"), (3, "00810", "")], true);
    let fs = assemble(&lines);
    assert_eq!(fs.len(), 1);
    let f = &fs[0];
    assert_eq!(f.z.journey_number, 123);
    assert_eq!(f.z.agency_id, "000881");
    assert_eq!(f.z.option_count, 1);
    assert_eq!(f.g.transport_mode, TransportMode::Bus);
    assert_eq!(f.g.origin_id, 8587057);
    assert_eq!(f.a.bit_field_number, 12);
    assert_eq!(f.l.line_number, 15);
    assert_eq!(f.r.direction, Direction::Outward);
    assert_eq!(f.stops.len(), 3);
    assert_eq!(f.stops[1].id, 2);
    assert_eq!(f.stops[1].arrival_time, "00805");
    assert_eq!(f.stops[0].arrival_time, "");
}

#[test]
fn journey_without_line_block_is_dropped() {
    let mut lines = journey("000001", "000881", &[(1, "", "00800"), (2, "00805", "")], false);
    lines.extend(journey("000002", "000881", &[(1, "", "00900"), (2, "00905", "")], true));
    let fs = assemble(&lines);
    assert_eq!(fs.len(), 1);
    assert_eq!(fs[0].z.journey_number, 2);
    assert_eq!(hrdf().count_journey_headers(&lines), 2);
}

#[test]
fn other_operator_is_skipped_with_its_lines() {
    let mut lines = journey("000001", "000999", &[(1, "", "00800"), (2, "00805", "")], true);
    lines.extend(journey("000002", "000881", &[(4, "", "00900"), (5, "00905", "")], true));
    let fs = assemble(&lines);
    assert_eq!(fs.len(), 1);
    assert_eq!(fs[0].z.journey_number, 2);
    assert_eq!(fs[0].stops.len(), 2);
    assert_eq!(fs[0].stops[0].id, 4);
    assert_eq!(hrdf().count_journey_headers(&lines), 1);
}

#[test]
fn consecutive_headers_are_both_read() {
    let mut lines = journey("000001", "000881", &[(1, "", "00800"), (2, "00805", "")], true);
    lines.extend(journey("000002", "000881", &[(1, "", "00900"), (2, "00905", "")], true));
    lines.extend(journey("000003", "000881", &[(1, "", "01000"), (2, "01005", "")], true));
    let fs = assemble(&lines);
    let numbers: Vec<i32> = fs.iter().map(|f| f.z.journey_number).collect();
    assert_eq!(numbers, vec![1, 2, 3]);
}

#[test]
fn ignorable_calendar_lines_do_not_end_a_journey() {
    let mut lines = journey("000001", "000881", &[(1, "", "00800")], true);
    lines.push("*A NF 000001".to_string());
    lines.push("*A SM 000001".to_string());
    lines.push("*A SD 000001".to_string());
    lines.push(stop_line(2, "00805", ""));
    let fs = assemble(&lines);
    assert_eq!(fs.len(), 1);
    assert_eq!(fs[0].stops.len(), 2);
}

#[test]
fn undecodable_calendar_reference_gives_default() {
    let mut lines = journey("000001", "000881", &[(1, "", "00800"), (2, "00805", "")], true);
    lines[2] = fixed(&[(0, "*A VE"), (6, "xxxxxxx"), (14, "8587058"), (22, "000012")]);
    let fs = assemble(&lines);
    assert_eq!(fs.len(), 1);
    assert_eq!(fs[0].a.bit_field_number, DEFAULT_BITFIELD_ID);
    assert_eq!(fs[0].a.bit_field_number, 17);
}

#[test]
fn first_block_occurrence_wins() {
    let mut lines = journey("000001", "000881", &[(1, "", "00800"), (2, "00805", "")], true);
    lines.insert(4, fixed(&[(0, "*L"), (4, "0000099"), (12, "8587057"), (20, "8587058")]));
    let fs = assemble(&lines);
    assert_eq!(fs.len(), 1);
    assert_eq!(fs[0].l.line_number, 15);
}

#[test]
fn unknown_direction_token_drops_the_journey() {
    let mut lines = journey("000001", "000881", &[(1, "", "00800"), (2, "00805", "")], true);
    lines[4] = fixed(&[(0, "*R"), (3, "X"), (6, "000001"), (13, "8587057"), (21, "8587058")]);
    assert_eq!(assemble(&lines).len(), 0);
}

#[test]
fn extracts_distinct_ids_in_order() {
    let mut lines = journey("000001", "000881", &[(3, "", "00800"), (1, "00805", ""), (3, "00810", "")], true);
    lines.extend(journey("000002", "000881", &[(2, "", "00900"), (1, "00905", "")], true));
    let fs = assemble(&lines);
    assert_eq!(hrdf().extract_stop_ids(&fs), vec![3, 1, 2]);
    assert_eq!(hrdf().extract_bitfield_ids(&fs), vec![12]);
}

#[test]
fn identifier_writes_positions_and_ids() {
    let stops: Vec<RawFahrplanStop> = [8587057, 42]
        .iter()
        .map(|id| RawFahrplanStop {
            id: *id,
            name: String::new(),
            arrival_time: String::new(),
            departure_time: String::new(),
        })
        .collect();
    assert_eq!(stop_sequence_identifier(&stops), "18587057242");
}

#[test]
fn shared_stop_sequence_gets_one_shape() {
    let mut lines = journey("000001", "000881", &[(1, "", "00800"), (2, "00805", "00806"), (3, "00810", "")], true);
    lines.extend(journey("000002", "000881", &[(1, "", "00900"), (2, "00905", "00906"), (3, "00910", "")], true));
    lines.extend(journey("000003", "000881", &[(1, "", "01000"), (3, "01005", "01006"), (2, "01010", "")], true));
    let fs = assemble(&lines);
    let (trips, shapes, _) = hrdf().to_trips_and_shapes_and_shape_stops(&fs);
    assert_eq!(trips[0].shape_id, Some(1));
    assert_eq!(trips[1].shape_id, Some(1));
    assert_eq!(trips[2].shape_id, Some(2));
    assert_eq!(shapes.len(), 2);
    assert_eq!(shapes[0].identifier, "112233");
    assert_eq!(shapes[1].identifier, "112332");
}

#[test]
fn colliding_identifiers_share_a_shape() {
    let mut lines = journey("000001", "000881", &[(1, "", "00800"), (23, "00805", "")], true);
    lines.extend(journey("000002", "000881", &[(12, "", "00900"), (3, "00905", "")], true));
    let fs = assemble(&lines);
    let (trips, shapes, _) = hrdf().to_trips_and_shapes_and_shape_stops(&fs);
    assert_eq!(shapes.len(), 1);
    assert_eq!(trips[0].shape_id, trips[1].shape_id);
}

#[test]
fn end_to_end_two_journeys_one_shared_sequence() {
    let mut lines = journey("000001", "000881", &[(1, "", "00800"), (2, "00805", "00806"), (3, "00810", "")], true);
    lines.extend(journey("000002", "000881", &[(1, "", "00900"), (2, "00905", "00906"), (3, "00910", "")], true));
    let fs = assemble(&lines);
    let (trips, shapes, shape_stops) = hrdf().to_trips_and_shapes_and_shape_stops(&fs);
    assert_eq!(trips.len(), 2);
    assert_eq!(shapes.len(), 1);
    assert_eq!(shape_stops.len(), 3);
    let seq: Vec<(i32, i32, i32, i16)> = shape_stops.iter().map(|s| (s.id, s.shape_id, s.stop_id, s.sequence)).collect();
    assert_eq!(seq, vec![(1, 1, 1, 1), (2, 1, 2, 2), (3, 1, 3, 3)]);
}

#[test]
fn end_to_end_two_journeys_distinct_sequences() {
    let mut lines = journey("000001", "000881", &[(1, "", "00800"), (2, "00805", "00806"), (3, "00810", "")], true);
    lines.extend(journey("000002", "000881", &[(4, "", "00900"), (5, "00905", "")], true));
    let fs = assemble(&lines);
    let (trips, shapes, shape_stops) = hrdf().to_trips_and_shapes_and_shape_stops(&fs);
    assert_eq!(trips.len(), 2);
    assert_eq!(shapes.len(), 2);
    assert_eq!(shape_stops.len(), 5);
    assert_eq!(shape_stops[3].shape_id, 2);
    assert_eq!(shape_stops[3].id, 4);
    assert_eq!(shape_stops[3].sequence, 1);
}

#[test]
fn trips_take_first_departure_and_last_arrival() {
    let lines = journey("000123", "000881", &[(1, "", "00800"), (2, "00805", "00806"), (3, "02510", "")], true);
    let fs = assemble(&lines);
    assert!(hrdf().check_buildable(&fs, true));
    let (trips, directions) = hrdf().to_trips_and_directions(&fs);
    assert_eq!(trips.len(), 1);
    let t = &trips[0];
    assert_eq!(t.id, 1);
    assert_eq!(t.journey_number, 123);
    assert_eq!(t.departure_time, hm(8, 0, 0));
    assert_eq!(t.arrival_time, hm(1, 10, 0));
    assert_eq!(t.direction_id, Some(1));
    assert_eq!(t.shape_id, None);
    assert_eq!(t.bitfield_id, 12);
    assert_eq!(t.line_id, 15);
    assert_eq!(directions.len(), 1);
    assert_eq!(directions[0].origin_id, 8587057);
    assert_eq!(directions[0].identifier, "112233");
}

#[test]
fn buildability_rejects_bad_times() {
    let lines = journey("000001", "000881", &[(1, "", "00800"), (2, "00875", "")], true);
    let fs = assemble(&lines);
    assert!(!hrdf().check_buildable(&fs, false));
    let lines = journey("000001", "000881", &[(1, "", ""), (2, "00805", "")], true);
    let fs = assemble(&lines);
    assert!(hrdf().check_buildable(&fs, false));
    assert!(!hrdf().check_buildable(&fs, true));
}

#[test]
fn simple_stop_times_apply_the_dwell() {
    let lines = journey("000001", "000881", &[(1, "", "00800"), (2, "00812", "00815"), (3, "00820", "")], true);
    let fs = assemble(&lines);
    let stops = hrdf().to_trip_stops(&fs);
    assert_eq!(stops.len(), 3);
    assert_eq!(stops[0].arrival_time, None);
    assert_eq!(stops[0].departure_time, Some(hm(8, 0, 0)));
    assert_eq!(stops[1].arrival_time, Some(hm(8, 12, 0)));
    assert_eq!(stops[1].departure_time, Some(hm(8, 15, 15)));
    assert_eq!(stops[2].arrival_time, Some(hm(8, 20, 0)));
    assert_eq!(stops[2].departure_time, Some(hm(8, 20, 0)));
    assert_eq!(stops[1].id, 2);
    assert_eq!(stops[1].sequence, 2);
    assert_eq!(stops[1].trip_id, 1);
}

#[test]
fn trip_stop_ids_run_across_journeys() {
    let mut lines = journey("000001", "000881", &[(1, "", "00800"), (2, "00805", "")], true);
    lines.extend(journey("000002", "000881", &[(1, "", "00900"), (2, "00905", "")], true));
    let fs = assemble(&lines);
    let stops = hrdf().to_trip_stops(&fs);
    let ids: Vec<(i32, i32, i16)> = stops.iter().map(|s| (s.id, s.trip_id, s.sequence)).collect();
    assert_eq!(ids, vec![(1, 1, 1), (2, 1, 2), (3, 2, 1), (4, 2, 2)]);
}
