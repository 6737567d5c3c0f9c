use rtmap::api::direction::{DirectionError, DirectionIdentifier};
use rtmap::api::trip::{TripError, TripIdentifier, TripSelector};
use rtmap::model::line::TransportMode;
use rtmap::repository::gtfs::{RawHaltestellen, GTFS};

#[test]
fn identifiers_parse_or_are_bad_requests() {
    assert_eq!(DirectionIdentifier { id: "42".to_string() }.parse(), Ok(42));
    assert_eq!(DirectionIdentifier { id: "x".to_string() }.parse(), Err(DirectionError::BadDirectionRequest));
    assert_eq!(TripIdentifier { id: "-3".to_string() }.parse(), Ok(-3));
    assert_eq!(TripIdentifier { id: "".to_string() }.parse(), Err(TripError::BadTripRequest));
}

#[test]
fn error_statuses() {
    assert_eq!(DirectionError::DirectionNotFound.status_code(), 404);
    assert_eq!(DirectionError::BadDirectionRequest.status_code(), 400);
    assert_eq!(TripError::InvalidBounds.status_code(), 400);
    assert_eq!(TripError::TripNotFound.message(), "TripNotFound");
}

#[test]
fn trip_window_bounds() {
    let sel = |b: Option<i16>| TripSelector { timestamp: 0, bounds: b, from: None };
    assert_eq!(sel(None).checked_bounds(), Ok(0));
    assert_eq!(sel(Some(24)).checked_bounds(), Ok(24));
    assert_eq!(sel(Some(25)).checked_bounds(), Err(TripError::InvalidBounds));
    assert_eq!(sel(Some(-1)).checked_bounds(), Err(TripError::InvalidBounds));
}

fn row(operator: &str, mode: TransportMode, stop: &str) -> RawHaltestellen {
    RawHaltestellen {
        fp_id: 2023,
        tu_code: operator.to_string(),
        tu_bezeichnung: String::new(),
        tu_abkuerzung: String::new(),
        fartnummer: String::new(),
        bpuic: stop.to_string(),
        bp_bezeichnung: String::new(),
        bp_abkuerzung: String::new(),
        kanton: String::new(),
        sloid: String::new(),
        vm_art: mode,
        fahrtage: String::new(),
        ab_zeit_kb: String::new(),
        an_zeit_kb: String::new(),
        richtung_text_aggregiert: String::new(),
        end_bp_bezeichnung: String::new(),
        linie: String::new(),
        bp_id: String::new(),
    }
}

#[test]
fn station_rows_are_kept_by_operator_and_mode() {
    let gtfs = GTFS { agency_id: "881".to_string() };
    let rows = vec![
        row("881", TransportMode::Bus, "a"),
        row("881", TransportMode::Rail, "b"),
        row("11", TransportMode::Bus, "c"),
        row("881", TransportMode::Tramway, "d"),
    ];
    let kept = gtfs.read_haltestellen(rows, vec![TransportMode::Bus, TransportMode::Tramway]);
    let stops: Vec<&str> = kept.iter().map(|h| h.bpuic.as_str()).collect();
    assert_eq!(stops, vec!["a", "d"]);
}
