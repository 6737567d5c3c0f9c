use rtmap::repository::maps::{LegMeasure, Maps, StepMeasure};

fn maps() -> Maps {
    Maps { api_key: "SECRET-REDACTED".to_string() }
}

fn measure(distance: i32, duration: i32, steps: usize) -> LegMeasure {
    LegMeasure {
        distance,
        duration,
        steps: (0..steps).map(|i| StepMeasure { distance: 10 * i as i32, duration: i as i32, geometry: i }).collect(),
    }
}

#[test]
fn chunks_hold_at_most_twenty_five_stops() {
    let stops: Vec<i32> = (1..=60).collect();
    let chunks = maps().waypoint_chunks(&stops);
    assert_eq!(chunks.len(), 3);
    assert_eq!(chunks[0].len(), 25);
    assert_eq!(chunks[1].len(), 25);
    assert_eq!(chunks[2].len(), 10);
    assert_eq!(chunks[1][0], 26);
    assert_eq!(chunks[2][9], 60);
    assert_eq!(maps().waypoint_chunks(&vec![]).len(), 0);
    assert_eq!(maps().waypoint_chunks(&(1..=25).collect()).len(), 1);
}

#[test]
fn legs_and_steps_are_numbered_across_requests() {
    let chunks = vec![vec![1, 2, 3], vec![4, 5]];
    let answers = vec![vec![measure(100, 60, 2), measure(200, 120, 1)], vec![measure(300, 180, 3)]];
    let (legs, steps) = maps().fold_legs(7, &chunks, &answers, 10, 20).unwrap();
    let got: Vec<(i32, i32, i16, i32, i32, i32)> =
        legs.iter().map(|l| (l.id, l.direction_id, l.sequence, l.origin_id, l.destination_id, l.duration)).collect();
    assert_eq!(got, vec![(10, 7, 1, 1, 2, 60), (11, 7, 2, 2, 3, 120), (12, 7, 3, 4, 5, 180)]);
    assert_eq!(steps.len(), 6);
    let s: Vec<(i32, i32, i16)> = steps.iter().map(|s| (s.id, s.leg_id, s.sequence)).collect();
    assert_eq!(s, vec![(20, 10, 1), (21, 10, 2), (22, 11, 1), (23, 12, 1), (24, 12, 2), (25, 12, 3)]);
}

#[test]
fn failed_request_gives_no_legs() {
    let chunks = vec![vec![1, 2, 3], vec![4, 5]];
    let answers = vec![vec![], vec![measure(300, 180, 0)]];
    let (legs, steps) = maps().fold_legs(7, &chunks, &answers, 1, 1).unwrap();
    assert_eq!(legs.len(), 1);
    assert_eq!(legs[0].sequence, 1);
    assert_eq!(legs[0].origin_id, 4);
    assert_eq!(steps.len(), 0);
}

#[test]
fn extra_answer_legs_are_ignored() {
    let chunks = vec![vec![1, 2]];
    let answers = vec![vec![measure(1, 1, 0), measure(2, 2, 0)]];
    let (legs, _) = maps().fold_legs(1, &chunks, &answers, 1, 1).unwrap();
    assert_eq!(legs.len(), 1);
}

#[test]
fn numbering_overflow_is_refused() {
    let chunks = vec![vec![1, 2]];
    let answers = vec![vec![measure(1, 1, 0)]];
    assert!(maps().fold_legs(1, &chunks, &answers, i32::MAX, 1).is_none());
    assert!(maps().fold_legs(1, &chunks, &answers, 0, 1).is_none());
}
