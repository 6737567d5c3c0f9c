//! Trips, shared stop sequences (shapes or directions) and per-stop times,
//! built from assembled journeys.
use crate::model::clock::{check_time_text, text_clock, time_text_ok, ClockTime};
use crate::model::direction::Direction as RouteDirection;
use crate::model::shape::Shape;
use crate::model::shape_stop::ShapeStop;
use crate::model::trip::Trip;
use crate::repository::hrdf::{fahrplans_view, Fahrplan, FahrplanView, HRDF};
use crate::repository::records::{RawFahrplanStop, RawFahrplanStopView};
use crate::text::{decimal_text, push_decimal, text_eq};
use vstd::prelude::*;

verus! {

/// Minimum time a vehicle is held at a stop, in seconds.
pub const SERVICE_DWELL: i32 = 15;

/// Largest gap, in seconds (exclusive), between a scheduled arrival and the
/// measured estimate for the estimate to replace it.
pub const ARRIVAL_TOLERANCE: i32 = 60;

pub open spec fn stop_views(stops: Seq<RawFahrplanStop>) -> Seq<RawFahrplanStopView> {
    stops.map_values(|s: RawFahrplanStop| s@)
}

pub open spec fn stop_ids(stops: Seq<RawFahrplanStopView>) -> Seq<i32> {
    stops.map_values(|s: RawFahrplanStopView| s.id)
}

/// The identifier of a stop sequence: each 1-based position followed by the
/// stop id, in decimal, with no separator.
pub open spec fn identifier_of(ids: Seq<i32>) -> Seq<char>
    decreases ids.len(),
{
    if ids.len() == 0 {
        Seq::empty()
    } else {
        identifier_of(ids.drop_last()) + decimal_text(ids.len() as int) + decimal_text(
            ids.last() as int,
        )
    }
}

pub open spec fn journey_identifier(f: FahrplanView) -> Seq<char> {
    identifier_of(stop_ids(f.stops))
}

/// Some journey of `reps` has the identifier.
pub open spec fn seen(reps: Seq<FahrplanView>, ident: Seq<char>) -> bool {
    exists|i: int| 0 <= i < reps.len() && journey_identifier(reps[i]) == ident
}

/// The first journey of each distinct identifier, in order of first
/// occurrence: the i-th of them owns shared sequence `i + 1`.
pub open spec fn representatives(fs: Seq<FahrplanView>) -> Seq<FahrplanView>
    decreases fs.len(),
{
    if fs.len() == 0 {
        Seq::empty()
    } else {
        let r = representatives(fs.drop_last());
        if seen(r, journey_identifier(fs.last())) {
            r
        } else {
            r.push(fs.last())
        }
    }
}

/// Position, among the shared sequences known once journey `k` is read, of
/// the one journey `k` follows.
pub open spec fn sequence_index(fs: Seq<FahrplanView>, k: int) -> int {
    let reps = representatives(fs.take(k + 1));
    choose|i: int| 0 <= i < reps.len() && journey_identifier(reps[i]) == journey_identifier(fs[k])
}

pub open spec fn distinct_identifiers(reps: Seq<FahrplanView>) -> bool {
    forall|i: int, j: int|
        0 <= i < j < reps.len() ==> journey_identifier(reps[i]) != journey_identifier(reps[j])
}

/// Every raw time of the stops can be read.
pub open spec fn times_readable(stops: Seq<RawFahrplanStopView>) -> bool {
    forall|j: int|
        0 <= j < stops.len() ==> time_text_ok((#[trigger] stops[j]).arrival_time) && time_text_ok(
            stops[j].departure_time,
        )
}

/// The raw times of a journey can be read, and it has a first departure and
/// a last arrival.
pub open spec fn times_ok(f: FahrplanView) -> bool {
    &&& f.stops.len() > 0
    &&& f.stops[0].departure_time.len() > 0
    &&& f.stops.last().arrival_time.len() > 0
    &&& times_readable(f.stops)
}

pub open spec fn total_stops(fs: Seq<FahrplanView>) -> int
    decreases fs.len(),
{
    if fs.len() == 0 {
        0
    } else {
        total_stops(fs.drop_last()) + fs.last().stops.len()
    }
}

/// Journeys whose stop times can be built: readable times, and counts that
/// fit the entities' integer ids and sequence numbers.
pub open spec fn stops_buildable(fs: Seq<FahrplanView>) -> bool {
    &&& fs.len() < i32::MAX
    &&& total_stops(fs) < i32::MAX
    &&& forall|k: int|
        0 <= k < fs.len() ==> times_readable(#[trigger] fs[k].stops) && fs[k].stops.len() < i16::MAX
}

/// Journeys whose trips can be built: besides, each has a first departure
/// and a last arrival.
pub open spec fn buildable(fs: Seq<FahrplanView>) -> bool {
    &&& stops_buildable(fs)
    &&& forall|k: int| 0 <= k < fs.len() ==> #[trigger] times_ok(fs[k])
}

/// The trip of a journey.
pub open spec fn trip_of(f: FahrplanView, id: int, shape_id: Option<i32>, direction_id: Option<i32>) -> Trip {
    Trip {
        id: id as i32,
        journey_number: f.z.journey_number,
        option_count: f.z.option_count,
        transport_mode: f.g.transport_mode,
        origin_id: f.g.origin_id,
        destination_id: f.g.destination_id,
        bitfield_id: f.a.bit_field_number,
        line_id: f.l.line_number,
        direction: f.r.direction,
        departure_time: text_clock(f.stops[0].departure_time)->0,
        arrival_time: text_clock(f.stops.last().arrival_time)->0,
        shape_id,
        direction_id,
    }
}

/// The stops of every shape, shape after shape, numbered from 1.
pub open spec fn shape_stop_rows(reps: Seq<FahrplanView>) -> Seq<ShapeStop>
    decreases reps.len(),
{
    if reps.len() == 0 {
        Seq::empty()
    } else {
        let p = shape_stop_rows(reps.drop_last());
        let stops = reps.last().stops;
        p + Seq::new(
            stops.len(),
            |j: int|
                ShapeStop {
                    id: (p.len() + j + 1) as i32,
                    shape_id: reps.len() as i32,
                    stop_id: stops[j].id,
                    sequence: (j + 1) as i16,
                },
        )
    }
}

proof fn lemma_representatives_distinct(fs: Seq<FahrplanView>)
    ensures
        distinct_identifiers(representatives(fs)),
    decreases fs.len(),
{
    if fs.len() > 0 {
        lemma_representatives_distinct(fs.drop_last());
    }
}

proof fn lemma_index_unique(reps: Seq<FahrplanView>, ident: Seq<char>, i: int)
    requires
        distinct_identifiers(reps),
        0 <= i < reps.len(),
        journey_identifier(reps[i]) == ident,
    ensures
        (choose|j: int| 0 <= j < reps.len() && journey_identifier(reps[j]) == ident) == i,
{
    let j = choose|j: int| 0 <= j < reps.len() && journey_identifier(reps[j]) == ident;
    assert(0 <= j < reps.len() && journey_identifier(reps[j]) == ident);
    if j < i {
        assert(journey_identifier(reps[j]) != journey_identifier(reps[i]));
    } else if i < j {
        assert(journey_identifier(reps[i]) != journey_identifier(reps[j]));
    }
}

proof fn lemma_representatives_prefix(fs: Seq<FahrplanView>, m: int)
    requires
        0 <= m <= fs.len(),
    ensures
        representatives(fs.take(m)).len() <= representatives(fs).len(),
        representatives(fs.take(m)) == representatives(fs).take(representatives(fs.take(m)).len() as int),
    decreases fs.len() - m,
{
    if m < fs.len() {
        lemma_representatives_prefix(fs, m + 1);
        let a = fs.take(m + 1);
        assert(a.drop_last() =~= fs.take(m));
        let r = representatives(fs.take(m));
        let r1 = representatives(a);
        let full = representatives(fs);
        assert(r1.take(r.len() as int) =~= r);
        assert(full.take(r.len() as int) =~= r1.take(r.len() as int));
    } else {
        assert(fs.take(m) =~= fs);
        assert(representatives(fs).take(representatives(fs).len() as int) =~= representatives(fs));
    }
}

/// Journeys with the same stop sequence share one shape (or direction).
/// Journeys whose identifiers differ get different ones; the identifier
/// differs whenever the sequences differ, unless two different sequences
/// write out to the same digits (as `[1, 23]` and `[12, 3]` do).
pub proof fn lemma_shared_sequences(fs: Seq<FahrplanView>, j: int, k: int)
    requires
        0 <= j < fs.len(),
        0 <= k < fs.len(),
    ensures
        stop_ids(fs[j].stops) == stop_ids(fs[k].stops) ==> sequence_index(fs, j) == sequence_index(fs, k),
        journey_identifier(fs[j]) != journey_identifier(fs[k]) ==> sequence_index(fs, j) != sequence_index(fs, k),
{
    lemma_sequence_index(fs, j);
    lemma_sequence_index(fs, k);
    lemma_representatives_prefix(fs, j + 1);
    lemma_representatives_prefix(fs, k + 1);
    lemma_representatives_distinct(fs);
    let full = representatives(fs);
    let rj = representatives(fs.take(j + 1));
    let rk = representatives(fs.take(k + 1));
    let ij = sequence_index(fs, j);
    let ik = sequence_index(fs, k);
    assert(full[ij] == rj[ij]);
    assert(full[ik] == rk[ik]);
    if journey_identifier(fs[j]) == journey_identifier(fs[k]) && ij != ik {
        if ij < ik {
            assert(journey_identifier(full[ij]) != journey_identifier(full[ik]));
        } else {
            assert(journey_identifier(full[ik]) != journey_identifier(full[ij]));
        }
    }
}

/// Shape stops are listed once per shape: their number is the sum of the
/// stop counts of the distinct sequences, whatever the number of journeys
/// that share them.
pub proof fn lemma_shape_stop_count(fs: Seq<FahrplanView>)
    ensures
        shape_stop_rows(representatives(fs)).len() == total_stops(representatives(fs)),
{
    lemma_shape_stop_rows_len(representatives(fs));
}

proof fn lemma_shape_stop_rows_len(reps: Seq<FahrplanView>)
    ensures
        shape_stop_rows(reps).len() == total_stops(reps),
    decreases reps.len(),
{
    if reps.len() > 0 {
        lemma_shape_stop_rows_len(reps.drop_last());
    }
}

/// The shared sequence of journey `k` is known once `k` is read, and has
/// `k`'s identifier.
pub proof fn lemma_sequence_index(fs: Seq<FahrplanView>, k: int)
    requires
        0 <= k < fs.len(),
    ensures
        0 <= sequence_index(fs, k) < representatives(fs.take(k + 1)).len(),
        journey_identifier(representatives(fs.take(k + 1))[sequence_index(fs, k)]) == journey_identifier(fs[k]),
{
    let a = fs.take(k + 1);
    assert(a.drop_last() =~= fs.take(k));
    assert(a.last() == fs[k]);
    let r = representatives(fs.take(k));
    if seen(r, journey_identifier(fs[k])) {
        let i = choose|i: int| 0 <= i < r.len() && journey_identifier(r[i]) == journey_identifier(fs[k]);
        assert(0 <= i < representatives(a).len() && journey_identifier(representatives(a)[i]) == journey_identifier(fs[k]));
    } else {
        let i = r.len() as int;
        assert(0 <= i < representatives(a).len() && journey_identifier(representatives(a)[i]) == journey_identifier(fs[k]));
    }
}

/// The identifier of a journey's stop sequence.
pub fn stop_sequence_identifier(stops: &Vec<RawFahrplanStop>) -> (r: String)
    requires
        stops@.len() < i32::MAX,
    ensures
        r@ == identifier_of(stop_ids(stop_views(stops@))),
{
    let ghost ids = stop_ids(stop_views(stops@));
    let mut r = String::new();
    let mut i: usize = 0;
    while i < stops.len()
        invariant
            i <= stops@.len(),
            stops@.len() < i32::MAX,
            ids == stop_ids(stop_views(stops@)),
            r@ == identifier_of(ids.take(i as int)),
        decreases stops@.len() - i,
    {
        proof {
            assert(ids.take(i + 1).drop_last() =~= ids.take(i as int));
            assert(ids.take(i + 1).last() == stops@[i as int].id);
        }
        push_decimal(&mut r, (i + 1) as i64);
        push_decimal(&mut r, stops[i].id as i64);
        i = i + 1;
    }
    assert(ids.take(i as int) =~= ids);
    r
}

/// Position of the first identifier equal to `t`.
fn find_identifier(v: &Vec<String>, t: &str) -> (r: Option<usize>)
    ensures
        match r {
            Some(i) => i < v@.len() && v@[i as int]@ == t@,
            None => forall|i: int| 0 <= i < v@.len() ==> (#[trigger] v@[i])@ != t@,
        },
{
    let mut i: usize = 0;
    while i < v.len()
        invariant
            i <= v@.len(),
            forall|j: int| 0 <= j < i ==> (#[trigger] v@[j])@ != t@,
        decreases v@.len() - i,
    {
        if text_eq(v[i].as_str(), t) {
            return Some(i);
        }
        i = i + 1;
    }
    None
}

fn make_trip(f: &Fahrplan, id: i32, shape_id: Option<i32>, direction_id: Option<i32>) -> (t: Trip)
    requires
        times_ok(f@),
    ensures
        t == trip_of(f@, id as int, shape_id, direction_id),
{
    let n = f.stops.len();
    assert(f@.stops[0] == f.stops@[0]@);
    assert(f@.stops.last() == f.stops@[n - 1]@);
    assert(time_text_ok(f@.stops[0].departure_time));
    assert(time_text_ok(f@.stops[n - 1].arrival_time));
    let departure = ClockTime::from_text(f.stops[0].departure_time.as_str());
    let arrival = ClockTime::from_text(f.stops[n - 1].arrival_time.as_str());
    let departure_time = match departure {
        Some(d) => d,
        None => ClockTime { seconds: 0 },
    };
    let arrival_time = match arrival {
        Some(a) => a,
        None => ClockTime { seconds: 0 },
    };
    Trip {
        id,
        journey_number: f.z.journey_number,
        option_count: f.z.option_count,
        transport_mode: f.g.transport_mode,
        origin_id: f.g.origin_id,
        destination_id: f.g.destination_id,
        bitfield_id: f.a.bit_field_number,
        line_id: f.l.line_number,
        direction: f.r.direction,
        departure_time,
        arrival_time,
        shape_id,
        direction_id,
    }
}

pub proof fn lemma_total_stops_prefix(fs: Seq<FahrplanView>, k: int)
    requires
        0 <= k < fs.len(),
    ensures
        total_stops(fs.take(k + 1)) == total_stops(fs.take(k)) + fs[k].stops.len(),
        total_stops(fs.take(k + 1)) <= total_stops(fs),
    decreases fs.len() - k,
{
    assert(fs.take(k + 1).drop_last() =~= fs.take(k));
    if k + 1 < fs.len() {
        lemma_total_stops_prefix(fs, k + 1);
    } else {
        assert(fs.take(k + 1) =~= fs);
    }
}

fn stops_times_readable(stops: &Vec<RawFahrplanStop>) -> (r: bool)
    ensures
        r == times_readable(stop_views(stops@)),
{
    let ghost sv = stop_views(stops@);
    let mut j: usize = 0;
    while j < stops.len()
        invariant
            j <= stops@.len(),
            sv == stop_views(stops@),
            forall|q: int| 0 <= q < j ==> time_text_ok((#[trigger] sv[q]).arrival_time) && time_text_ok(sv[q].departure_time),
        decreases stops@.len() - j,
    {
        assert(sv[j as int] == stops@[j as int]@);
        if !check_time_text(stops[j].arrival_time.as_str()) || !check_time_text(stops[j].departure_time.as_str()) {
            return false;
        }
        j = j + 1;
    }
    true
}

fn ends_present(f: &Fahrplan) -> (r: bool)
    ensures
        r == (f@.stops.len() > 0 && f@.stops[0].departure_time.len() > 0 && f@.stops.last().arrival_time.len() > 0),
{
    let n = f.stops.len();
    if n == 0 {
        return false;
    }
    assert(f@.stops[0] == f.stops@[0]@);
    assert(f@.stops.last() == f.stops@[n - 1]@);
    f.stops[0].departure_time.as_str().unicode_len() > 0 && f.stops[n - 1].arrival_time.as_str().unicode_len() > 0
}

proof fn lemma_total_stops_monotone(fs: Seq<FahrplanView>, m: int)
    requires
        0 <= m <= fs.len(),
    ensures
        total_stops(fs.take(m)) <= total_stops(fs),
    decreases fs.len() - m,
{
    if m < fs.len() {
        lemma_total_stops_prefix(fs, m);
    } else {
        assert(fs.take(m) =~= fs);
    }
}

impl HRDF {
    /// Whether the journeys' stop times can be built (see `stops_buildable`);
    /// with `with_ends`, whether their trips can be (see `buildable`).
    pub fn check_buildable(&self, fahrplans: &Vec<Fahrplan>, with_ends: bool) -> (r: bool)
        ensures
            r == if with_ends {
                buildable(fahrplans_view(fahrplans@))
            } else {
                stops_buildable(fahrplans_view(fahrplans@))
            },
    {
        let ghost fs = fahrplans_view(fahrplans@);
        if fahrplans.len() >= i32::MAX as usize {
            return false;
        }
        let mut total: i64 = 0;
        let mut k: usize = 0;
        while k < fahrplans.len()
            invariant
                k <= fs.len(),
                fs.len() < i32::MAX,
                fs == fahrplans_view(fahrplans@),
                total == total_stops(fs.take(k as int)),
                0 <= total < i32::MAX,
                forall|q: int|
                    0 <= q < k ==> times_readable(#[trigger] fs[q].stops) && fs[q].stops.len() < i16::MAX,
                with_ends ==> forall|q: int| 0 <= q < k ==> #[trigger] times_ok(fs[q]),
            decreases fs.len() - k,
        {
            let f = &fahrplans[k];
            proof {
                assert(fs[k as int] == f@);
                assert(f@.stops =~= stop_views(f.stops@));
                lemma_total_stops_prefix(fs, k as int);
            }
            if f.stops.len() >= i16::MAX as usize || !stops_times_readable(&f.stops) {
                assert(!(times_readable(fs[k as int].stops) && fs[k as int].stops.len() < i16::MAX));
                return false;
            }
            if with_ends && !ends_present(f) {
                assert(!times_ok(fs[k as int]));
                return false;
            }
            total = total + f.stops.len() as i64;
            if total >= i32::MAX as i64 {
                proof {
                    lemma_total_stops_monotone(fs, k + 1);
                }
                return false;
            }
            k = k + 1;
        }
        assert(fs.take(k as int) =~= fs);
        true
    }

    /// One trip per journey, and the distinct stop sequences as shapes with
    /// their stops. Trip `k + 1` is journey `k`; shapes are numbered in order
    /// of first occurrence, and a shape's stops are listed once, when the
    /// shape is created.
    pub fn to_trips_and_shapes_and_shape_stops(&self, fahrplans: &Vec<Fahrplan>) -> (r: (
        Vec<Trip>,
        Vec<Shape>,
        Vec<ShapeStop>,
    ))
        requires
            buildable(fahrplans_view(fahrplans@)),
        ensures
            ({
                let fs = fahrplans_view(fahrplans@);
                let reps = representatives(fs);
                &&& r.0@.len() == fs.len()
                &&& forall|k: int|
                    0 <= k < fs.len() ==> #[trigger] r.0@[k] == trip_of(
                        fs[k],
                        k + 1,
                        Some((sequence_index(fs, k) + 1) as i32),
                        None,
                    )
                &&& r.1@.len() == reps.len()
                &&& forall|i: int|
                    0 <= i < reps.len() ==> (#[trigger] r.1@[i]).id == i + 1 && r.1@[i].identifier@
                        == journey_identifier(reps[i])
                &&& r.2@ == shape_stop_rows(reps)
            }),
    {
        let ghost fs = fahrplans_view(fahrplans@);
        let mut trips: Vec<Trip> = Vec::new();
        let mut shapes: Vec<Shape> = Vec::new();
        let mut identifiers: Vec<String> = Vec::new();
        let mut shape_stops: Vec<ShapeStop> = Vec::new();
        let mut k: usize = 0;
        while k < fahrplans.len()
            invariant
                fs == fahrplans_view(fahrplans@),
                buildable(fs),
                k <= fs.len(),
                trips@.len() == k,
                forall|j: int|
                    0 <= j < k ==> #[trigger] trips@[j] == trip_of(
                        fs[j],
                        j + 1,
                        Some((sequence_index(fs, j) + 1) as i32),
                        None,
                    ),
                ({
                    let reps = representatives(fs.take(k as int));
                    &&& reps.len() <= k
                    &&& shapes@.len() == reps.len()
                    &&& identifiers@.len() == reps.len()
                    &&& forall|i: int|
                        0 <= i < reps.len() ==> (#[trigger] shapes@[i]).id == i + 1
                            && shapes@[i].identifier@ == journey_identifier(reps[i])
                    &&& forall|i: int|
                        0 <= i < reps.len() ==> (#[trigger] identifiers@[i])@ == journey_identifier(reps[i])
                    &&& shape_stops@ == shape_stop_rows(reps)
                }),
                shape_stops@.len() <= total_stops(fs.take(k as int)),
            decreases fs.len() - k,
        {
            let f = &fahrplans[k];
            let ghost reps = representatives(fs.take(k as int));
            let ghost next = fs.take(k + 1);
            proof {
                assert(next.drop_last() =~= fs.take(k as int));
                assert(next.last() == fs[k as int]);
                assert(fs[k as int] == f@);
                lemma_total_stops_prefix(fs, k as int);
                lemma_representatives_distinct(next);
                assert(times_ok(fs[k as int]));
                assert(f@.stops =~= stop_views(f.stops@));
            }
            let ident = stop_sequence_identifier(&f.stops);
            let index: usize = match find_identifier(&identifiers, ident.as_str()) {
                Some(i) => {
                    proof {
                        assert(journey_identifier(reps[i as int]) == journey_identifier(f@));
                        assert(seen(reps, journey_identifier(f@)));
                        lemma_index_unique(representatives(next), journey_identifier(f@), i as int);
                    }
                    i
                },
                None => {
                    proof {
                        assert(!seen(reps, journey_identifier(f@))) by {
                            if seen(reps, journey_identifier(f@)) {
                                let w = choose|w: int| 0 <= w < reps.len() && journey_identifier(reps[w]) == journey_identifier(f@);
                                assert(identifiers@[w]@ == journey_identifier(f@));
                            }
                        }
                        assert(representatives(next) == reps.push(f@));
                    }
                    let shape_id: i32 = (shapes.len() + 1) as i32;
                    let base: usize = shape_stops.len();
                    let mut j: usize = 0;
                    while j < f.stops.len()
                        invariant
                            j <= f.stops@.len(),
                            f.stops@.len() < i16::MAX,
                            base + j == shape_stops@.len(),
                            base + f.stops@.len() < i32::MAX,
                            shape_id == reps.len() + 1,
                            shape_stops@ == shape_stop_rows(reps) + Seq::new(
                                j as nat,
                                |q: int|
                                    ShapeStop {
                                        id: (base + q + 1) as i32,
                                        shape_id: (reps.len() + 1) as i32,
                                        stop_id: f@.stops[q].id,
                                        sequence: (q + 1) as i16,
                                    },
                            ),
                        decreases f.stops@.len() - j,
                    {
                        let row = ShapeStop {
                            id: (base + j + 1) as i32,
                            shape_id,
                            stop_id: f.stops[j].id,
                            sequence: (j + 1) as i16,
                        };
                        let ghost before = shape_stops@;
                        shape_stops.push(row);
                        proof {
                            assert(f@.stops[j as int] == f.stops@[j as int]@);
                        }
                        j = j + 1;
                        assert(shape_stops@ =~= shape_stop_rows(reps) + Seq::new(
                            j as nat,
                            |q: int|
                                ShapeStop {
                                    id: (base + q + 1) as i32,
                                    shape_id: (reps.len() + 1) as i32,
                                    stop_id: f@.stops[q].id,
                                    sequence: (q + 1) as i16,
                                },
                        ));
                    }
                    assert(shape_stops@ =~= shape_stop_rows(reps.push(f@))) by {
                        assert(reps.push(f@).drop_last() =~= reps);
                    }
                    shapes.push(Shape { id: shape_id, identifier: ident.clone() });
                    identifiers.push(ident);
                    proof {
                        lemma_index_unique(representatives(next), journey_identifier(f@), reps.len() as int);
                    }
                    shapes.len() - 1
                },
            };
            trips.push(make_trip(f, (k + 1) as i32, Some((index + 1) as i32), None));
            k = k + 1;
        }
        assert(fs.take(k as int) =~= fs);
        (trips, shapes, shape_stops)
    }

    /// One trip per journey, and the distinct stop sequences as directions.
    /// Trip `k + 1` is journey `k`; directions are numbered in order of first
    /// occurrence and take their end stops from the journey that introduced
    /// them.
    pub fn to_trips_and_directions(&self, fahrplans: &Vec<Fahrplan>) -> (r: (Vec<Trip>, Vec<RouteDirection>))
        requires
            buildable(fahrplans_view(fahrplans@)),
        ensures
            ({
                let fs = fahrplans_view(fahrplans@);
                let reps = representatives(fs);
                &&& r.0@.len() == fs.len()
                &&& forall|k: int|
                    0 <= k < fs.len() ==> #[trigger] r.0@[k] == trip_of(
                        fs[k],
                        k + 1,
                        None,
                        Some((sequence_index(fs, k) + 1) as i32),
                    )
                &&& r.1@.len() == reps.len()
                &&& forall|i: int|
                    0 <= i < reps.len() ==> (#[trigger] r.1@[i]).id == i + 1 && r.1@[i].identifier@
                        == journey_identifier(reps[i]) && r.1@[i].origin_id == reps[i].g.origin_id
                        && r.1@[i].destination_id == reps[i].g.destination_id
            }),
    {
        let ghost fs = fahrplans_view(fahrplans@);
        let mut trips: Vec<Trip> = Vec::new();
        let mut directions: Vec<RouteDirection> = Vec::new();
        let mut identifiers: Vec<String> = Vec::new();
        let mut k: usize = 0;
        while k < fahrplans.len()
            invariant
                fs == fahrplans_view(fahrplans@),
                buildable(fs),
                k <= fs.len(),
                trips@.len() == k,
                forall|j: int|
                    0 <= j < k ==> #[trigger] trips@[j] == trip_of(
                        fs[j],
                        j + 1,
                        None,
                        Some((sequence_index(fs, j) + 1) as i32),
                    ),
                ({
                    let reps = representatives(fs.take(k as int));
                    &&& reps.len() <= k
                    &&& directions@.len() == reps.len()
                    &&& identifiers@.len() == reps.len()
                    &&& forall|i: int|
                        0 <= i < reps.len() ==> (#[trigger] directions@[i]).id == i + 1
                            && directions@[i].identifier@ == journey_identifier(reps[i])
                            && directions@[i].origin_id == reps[i].g.origin_id
                            && directions@[i].destination_id == reps[i].g.destination_id
                    &&& forall|i: int|
                        0 <= i < reps.len() ==> (#[trigger] identifiers@[i])@ == journey_identifier(reps[i])
                }),
            decreases fs.len() - k,
        {
            let f = &fahrplans[k];
            let ghost reps = representatives(fs.take(k as int));
            let ghost next = fs.take(k + 1);
            proof {
                assert(next.drop_last() =~= fs.take(k as int));
                assert(next.last() == fs[k as int]);
                assert(fs[k as int] == f@);
                lemma_representatives_distinct(next);
                assert(times_ok(fs[k as int]));
                assert(f@.stops =~= stop_views(f.stops@));
            }
            let ident = stop_sequence_identifier(&f.stops);
            let index: usize = match find_identifier(&identifiers, ident.as_str()) {
                Some(i) => {
                    proof {
                        assert(journey_identifier(reps[i as int]) == journey_identifier(f@));
                        assert(seen(reps, journey_identifier(f@)));
                        lemma_index_unique(representatives(next), journey_identifier(f@), i as int);
                    }
                    i
                },
                None => {
                    proof {
                        assert(!seen(reps, journey_identifier(f@))) by {
                            if seen(reps, journey_identifier(f@)) {
                                let w = choose|w: int| 0 <= w < reps.len() && journey_identifier(reps[w]) == journey_identifier(f@);
                                assert(identifiers@[w]@ == journey_identifier(f@));
                            }
                        }
                        assert(representatives(next) == reps.push(f@));
                        lemma_index_unique(representatives(next), journey_identifier(f@), reps.len() as int);
                    }
                    directions.push(
                        RouteDirection {
                            id: (directions.len() + 1) as i32,
                            identifier: ident.clone(),
                            origin_id: f.g.origin_id,
                            destination_id: f.g.destination_id,
                        },
                    );
                    identifiers.push(ident);
                    directions.len() - 1
                },
            };
            trips.push(make_trip(f, (k + 1) as i32, None, Some((index + 1) as i32)));
            k = k + 1;
        }
        assert(fs.take(k as int) =~= fs);
        (trips, directions)
    }
}

} // verus!
