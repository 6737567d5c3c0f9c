use rtmap::model::clock::ClockTime;
use rtmap::model::direction::Direction as RouteDirection;
use rtmap::model::direction_leg::DirectionLeg;
use rtmap::repository::hrdf::{Fahrplan, HRDF};
use rtmap::repository::records::{
    RawFahrplanA, RawFahrplanG, RawFahrplanL, RawFahrplanR, RawFahrplanStop, RawFahrplanZ,
};
use rtmap::repository::stop_times::{reconcile_arrival, stop_time_of};
use rtmap::model::line::TransportMode;
use rtmap::model::types::Direction;

fn hm(h: u32, m: u32, s: u32) -> ClockTime {
    ClockTime::from_hms(h, m, s).unwrap()
}

fn stop(id: i32, arrival: &str, departure: &str) -> RawFahrplanStop {
    RawFahrplanStop {
        id,
        name: String::new(),
        arrival_time: arrival.to_string(),
        departure_time: departure.to_string(),
    }
}

fn journey(stops: Vec<RawFahrplanStop>) -> Fahrplan {
    Fahrplan {
        z: RawFahrplanZ { journey_number: 1, agency_id: "000881".to_string(), option_count: 1 },
        g: RawFahrplanG { transport_mode: TransportMode::Bus, origin_id: 1, destination_id: 3 },
        a: RawFahrplanA { origin_id: 1, destination_id: 3, bit_field_number: 5 },
        l: RawFahrplanL { line_number: 7, origin_id: 1, destination_id: 3 },
        r: RawFahrplanR { direction: Direction::Return, direction_number: 1, origin_id: 1, destination_id: 3 },
        stops,
    }
}

fn leg(id: i32, direction_id: i32, from: i32, to: i32, duration: i32) -> DirectionLeg {
    DirectionLeg { id, direction_id, distance: 1000, duration, sequence: id as i16, origin_id: from, destination_id: to }
}

#[test]
fn estimate_within_tolerance_replaces_arrival() {
    let estimate = hm(8, 0, 0).add_seconds(300);
    assert_eq!(estimate, hm(8, 5, 0));
    assert_eq!(reconcile_arrival(hm(8, 5, 10), Some(estimate)), hm(8, 5, 0));
}

#[test]
fn estimate_beyond_tolerance_is_ignored() {
    let estimate = hm(8, 0, 0).add_seconds(300);
    assert_eq!(reconcile_arrival(hm(8, 7, 0), Some(estimate)), hm(8, 7, 0));
    assert_eq!(reconcile_arrival(hm(8, 6, 0), Some(estimate)), hm(8, 6, 0));
    assert_eq!(reconcile_arrival(hm(8, 5, 59), Some(estimate)), hm(8, 5, 0));
    assert_eq!(reconcile_arrival(hm(8, 7, 0), None), hm(8, 7, 0));
}

#[test]
fn departure_is_arrival_plus_stay_plus_dwell() {
    let (a, d) = stop_time_of(&stop(2, "00812", "00815"), None);
    assert_eq!(a, Some(hm(8, 12, 0)));
    assert_eq!(d, Some(hm(8, 15, 15)));
    let (a, d) = stop_time_of(&stop(2, "00812", "00815"), Some(hm(8, 11, 30)));
    assert_eq!(a, Some(hm(8, 11, 30)));
    assert_eq!(d, Some(hm(8, 14, 45)));
}

#[test]
fn stay_across_midnight_wraps() {
    let (a, d) = stop_time_of(&stop(2, "02359", "02401"), None);
    assert_eq!(a, Some(hm(23, 59, 0)));
    assert_eq!(d, Some(hm(0, 1, 15)));
}

#[test]
fn clock_arithmetic_wraps_both_ways() {
    assert_eq!(hm(23, 59, 0).add_seconds(120), hm(0, 1, 0));
    assert_eq!(hm(0, 0, 30).add_seconds(-60), hm(23, 59, 30));
    assert_eq!(hm(8, 0, 0).seconds_since(hm(8, 5, 0)), -300);
    assert_eq!(ClockTime::from_hms(24, 0, 0), None);
    assert_eq!(ClockTime::from_text("02510"), Some(hm(1, 10, 0)));
    assert_eq!(ClockTime::from_text(""), None);
}

#[test]
fn reconciles_along_measured_legs() {
    let fs = vec![journey(vec![stop(1, "", "00800"), stop(2, "00805", "00806"), stop(3, "00812", "")])];
    let hrdf = HRDF { agency_id: "000881".to_string() };
    let (_, directions) = hrdf.to_trips_and_directions(&fs);
    let legs = vec![leg(1, 1, 1, 2, 290), leg(2, 1, 2, 3, 600)];
    let stops = hrdf.get_trip_stops_with_directions(&fs, &directions, &legs);
    assert_eq!(stops.len(), 3);
    assert_eq!(stops[0].departure_time, Some(hm(8, 0, 0)));
    assert_eq!(stops[1].arrival_time, Some(hm(8, 4, 50)));
    assert_eq!(stops[1].departure_time, Some(hm(8, 6, 5)));
    assert_eq!(stops[2].arrival_time, Some(hm(8, 12, 0)));
    assert_eq!(stops[2].departure_time, Some(hm(8, 12, 0)));
}

#[test]
fn missing_leg_or_direction_keeps_schedule_times() {
    let fs = vec![journey(vec![stop(1, "", "00800"), stop(2, "00805", "00806")])];
    let hrdf = HRDF { agency_id: "000881".to_string() };
    let other = vec![RouteDirection { id: 9, identifier: "1929".to_string(), origin_id: 1, destination_id: 2 }];
    let legs = vec![leg(1, 9, 1, 2, 290)];
    let stops = hrdf.get_trip_stops_with_directions(&fs, &other, &legs);
    assert_eq!(stops[1].arrival_time, Some(hm(8, 5, 0)));
    let (_, directions) = hrdf.to_trips_and_directions(&fs);
    let stops = hrdf.get_trip_stops_with_directions(&fs, &directions, &legs);
    assert_eq!(stops[1].arrival_time, Some(hm(8, 5, 0)));
    assert_eq!(stops[1].departure_time, Some(hm(8, 6, 15)));
}
