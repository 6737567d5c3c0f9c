//! Per-stop times of trips: taken from the schedule as they are, or
//! reconciled against measured travel times of direction legs.
use crate::model::clock::{day_wrap, text_clock, time_text_ok, ClockTime, SECONDS_PER_DAY};
use crate::model::direction::{Direction as RouteDirection, DirectionView};
use crate::model::direction_leg::DirectionLeg;
use crate::model::trip_stop::TripStop;
use crate::repository::hrdf::{fahrplans_view, Fahrplan, FahrplanView, HRDF};
use crate::repository::records::{RawFahrplanStop, RawFahrplanStopView};
use crate::repository::trips::{
    journey_identifier, stop_sequence_identifier, stop_views, stops_buildable, times_readable,
    total_stops, ARRIVAL_TOLERANCE, SERVICE_DWELL,
};
use crate::text::text_eq;
use vstd::arithmetic::div_mod::lemma_small_mod;
use vstd::prelude::*;

verus! {

/// Position of the first element that satisfies `p`.
pub open spec fn first_index<A>(s: Seq<A>, p: spec_fn(A) -> bool) -> Option<int>
    decreases s.len(),
{
    if s.len() == 0 {
        None
    } else {
        match first_index(s.drop_last(), p) {
            Some(i) => Some(i),
            None => if p(s.last()) {
                Some(s.len() - 1)
            } else {
                None
            },
        }
    }
}

/// The measured leg of a direction between two stops.
pub open spec fn leg_between(direction_id: i32, from: i32, to: i32) -> spec_fn(DirectionLeg) -> bool {
    |l: DirectionLeg| l.direction_id == direction_id && l.origin_id == from && l.destination_id == to
}

/// The scheduled arrival, replaced by the estimate when the two are less
/// than the tolerance apart.
pub open spec fn reconciled_arrival(raw: ClockTime, estimate: Option<ClockTime>) -> ClockTime {
    match estimate {
        Some(e) => if -ARRIVAL_TOLERANCE < raw.seconds - e.seconds < ARRIVAL_TOLERANCE {
            e
        } else {
            raw
        },
        None => raw,
    }
}

/// Time held at a stop after arriving: the scheduled stay plus the service
/// dwell when both raw times are there, nothing otherwise.
pub open spec fn dwell(arrival: Option<ClockTime>, departure: Option<ClockTime>) -> int {
    match (arrival, departure) {
        (Some(a), Some(d)) => d.seconds - a.seconds + SERVICE_DWELL,
        _ => 0,
    }
}

/// Arrival and departure of a stop given the estimated arrival, if any: the
/// departure follows the (possibly corrected) arrival by the dwell; with no
/// arrival it is the raw departure, or absent.
pub open spec fn stop_time(stop: RawFahrplanStopView, estimate: Option<ClockTime>) -> (Option<ClockTime>, Option<ClockTime>) {
    let arrival = text_clock(stop.arrival_time);
    let departure = text_clock(stop.departure_time);
    match arrival {
        Some(a) => {
            let corrected = reconciled_arrival(a, estimate);
            (
                Some(corrected),
                Some(ClockTime { seconds: day_wrap(corrected.seconds + dwell(arrival, departure)) as u32 }),
            )
        },
        None => (None, departure),
    }
}

/// The estimated arrival at `to`: the departure from `from` plus the
/// duration of the direction's first leg between them.
pub open spec fn leg_estimate(
    legs: Seq<DirectionLeg>,
    direction_id: Option<i32>,
    from: i32,
    to: i32,
    previous_departure: Option<ClockTime>,
) -> Option<ClockTime> {
    match (direction_id, previous_departure) {
        (Some(d), Some(p)) => match first_index(legs, leg_between(d, from, to)) {
            Some(i) => Some(ClockTime { seconds: day_wrap(p.seconds + legs[i].duration) as u32 }),
            None => None,
        },
        _ => None,
    }
}

/// Times of a journey's stops, in order. The first stop has no predecessor
/// and keeps its raw times; each later one is estimated from the corrected
/// departure of the one before.
pub open spec fn stop_times(
    stops: Seq<RawFahrplanStopView>,
    legs: Seq<DirectionLeg>,
    direction_id: Option<i32>,
) -> Seq<(Option<ClockTime>, Option<ClockTime>)>
    decreases stops.len(),
{
    if stops.len() == 0 {
        Seq::empty()
    } else {
        let p = stop_times(stops.drop_last(), legs, direction_id);
        let estimate = if stops.len() > 1 {
            leg_estimate(legs, direction_id, stops[stops.len() - 2].id, stops.last().id, p.last().1)
        } else {
            None
        };
        p.push(stop_time(stops.last(), estimate))
    }
}

/// The trip stops of one journey, ids from `first_id`.
pub open spec fn journey_rows(
    stops: Seq<RawFahrplanStopView>,
    times: Seq<(Option<ClockTime>, Option<ClockTime>)>,
    trip_id: int,
    first_id: int,
) -> Seq<TripStop> {
    Seq::new(
        times.len(),
        |j: int|
            TripStop {
                id: (first_id + j) as i32,
                stop_id: stops[j].id,
                trip_id: trip_id as i32,
                sequence: (j + 1) as i16,
                arrival_time: times[j].0,
                departure_time: times[j].1,
            },
    )
}

/// The trip stops of all journeys: journey `k` is trip `k + 1`, reconciled
/// against the legs of direction `directions[k]` when there is one; ids run
/// on across journeys from 1.
pub open spec fn trip_stop_rows(
    fs: Seq<FahrplanView>,
    legs: Seq<DirectionLeg>,
    directions: Seq<Option<i32>>,
) -> Seq<TripStop>
    decreases fs.len(),
{
    if fs.len() == 0 {
        Seq::empty()
    } else {
        let p = trip_stop_rows(fs.drop_last(), legs, directions.drop_last());
        let stops = fs.last().stops;
        p + journey_rows(stops, stop_times(stops, legs, directions.last()), fs.len() as int, p.len() + 1int)
    }
}

pub open spec fn has_identifier(ident: Seq<char>) -> spec_fn(DirectionView) -> bool {
    |d: DirectionView| d.identifier == ident
}

pub open spec fn directions_view(dirs: Seq<RouteDirection>) -> Seq<DirectionView> {
    dirs.map_values(|d: RouteDirection| d@)
}

/// The direction each journey follows: the first one with its identifier.
pub open spec fn journey_directions(fs: Seq<FahrplanView>, dirs: Seq<DirectionView>) -> Seq<Option<i32>> {
    Seq::new(
        fs.len(),
        |k: int|
            match first_index(dirs, has_identifier(journey_identifier(fs[k]))) {
                Some(i) => Some(dirs[i].id),
                None => None,
            },
    )
}

/// With both raw times present, a stop departs at its (possibly corrected)
/// arrival plus the scheduled stay plus the service dwell, wrapped to the
/// day; so it never departs before it arrives when the raw departure is not
/// before the raw arrival and that sum stays within the day. (A stay across
/// midnight, arriving 23:59 and leaving 00:01, departs at 00:01:15.)
pub proof fn lemma_departure_after_dwell(stop: RawFahrplanStopView, estimate: Option<ClockTime>)
    requires
        time_text_ok(stop.arrival_time),
        time_text_ok(stop.departure_time),
        stop.arrival_time.len() > 0,
        stop.departure_time.len() > 0,
        estimate matches Some(e) ==> e.wf(),
    ensures
        ({
            let a = text_clock(stop.arrival_time)->0;
            let d = text_clock(stop.departure_time)->0;
            let arrival = stop_time(stop, estimate).0->0;
            let departure = stop_time(stop, estimate).1->0;
            &&& departure.seconds == day_wrap(arrival.seconds + (d.seconds - a.seconds) + SERVICE_DWELL)
            &&& (d.seconds >= a.seconds && arrival.seconds + (d.seconds - a.seconds) + SERVICE_DWELL
                < SECONDS_PER_DAY ==> departure.seconds >= arrival.seconds)
        }),
{
    let a = text_clock(stop.arrival_time)->0;
    let d = text_clock(stop.departure_time)->0;
    let arrival = stop_time(stop, estimate).0->0;
    let x = arrival.seconds + (d.seconds - a.seconds) + SERVICE_DWELL;
    if d.seconds >= a.seconds && x < SECONDS_PER_DAY {
        lemma_small_mod(x as nat, SECONDS_PER_DAY as nat);
    }
}

proof fn lemma_first_index_prefix<A>(s: Seq<A>, p: spec_fn(A) -> bool, m: int)
    requires
        0 <= m <= s.len(),
        first_index(s.take(m), p) is Some,
    ensures
        first_index(s, p) == first_index(s.take(m), p),
    decreases s.len() - m,
{
    if m < s.len() {
        assert(s.take(m + 1).drop_last() =~= s.take(m));
        lemma_first_index_prefix(s, p, m + 1);
    } else {
        assert(s.take(m) =~= s);
    }
}

proof fn lemma_stop_times_len(stops: Seq<RawFahrplanStopView>, legs: Seq<DirectionLeg>, d: Option<i32>)
    ensures
        stop_times(stops, legs, d).len() == stops.len(),
    decreases stops.len(),
{
    if stops.len() > 0 {
        lemma_stop_times_len(stops.drop_last(), legs, d);
    }
}

/// The scheduled arrival, replaced by the estimate when they are less than
/// the tolerance apart.
pub fn reconcile_arrival(raw: ClockTime, estimate: Option<ClockTime>) -> (r: ClockTime)
    requires
        raw.wf(),
        estimate matches Some(e) ==> e.wf(),
    ensures
        r == reconciled_arrival(raw, estimate),
        r.wf(),
{
    match estimate {
        Some(e) => {
            let gap = raw.seconds_since(e);
            if -ARRIVAL_TOLERANCE < gap && gap < ARRIVAL_TOLERANCE {
                e
            } else {
                raw
            }
        },
        None => raw,
    }
}

/// Arrival and departure of a stop given the estimated arrival, if any.
pub fn stop_time_of(stop: &RawFahrplanStop, estimate: Option<ClockTime>) -> (r: (Option<ClockTime>, Option<ClockTime>))
    requires
        time_text_ok(stop@.arrival_time),
        time_text_ok(stop@.departure_time),
        estimate matches Some(e) ==> e.wf(),
    ensures
        r == stop_time(stop@, estimate),
        r.1 matches Some(d) ==> d.wf(),
{
    let arrival = ClockTime::from_text(stop.arrival_time.as_str());
    let departure = ClockTime::from_text(stop.departure_time.as_str());
    match arrival {
        Some(a) => {
            let corrected = reconcile_arrival(a, estimate);
            let stay: i32 = match departure {
                Some(d) => d.seconds_since(a) + SERVICE_DWELL,
                None => 0,
            };
            (Some(corrected), Some(corrected.add_seconds(stay)))
        },
        None => (None, departure),
    }
}

/// Position of the first leg of `direction_id` from `from` to `to`.
fn find_leg(legs: &Vec<DirectionLeg>, direction_id: i32, from: i32, to: i32) -> (r: Option<usize>)
    ensures
        match r {
            Some(i) => i < legs@.len() && first_index(legs@, leg_between(direction_id, from, to)) == Some(
                i as int,
            ),
            None => first_index(legs@, leg_between(direction_id, from, to)) is None,
        },
{
    let ghost p = leg_between(direction_id, from, to);
    let mut i: usize = 0;
    while i < legs.len()
        invariant
            i <= legs@.len(),
            p == leg_between(direction_id, from, to),
            first_index(legs@.take(i as int), p) is None,
        decreases legs@.len() - i,
    {
        proof {
            assert(legs@.take(i + 1).drop_last() =~= legs@.take(i as int));
        }
        let l = legs[i];
        if l.direction_id == direction_id && l.origin_id == from && l.destination_id == to {
            proof {
                lemma_first_index_prefix(legs@, p, i + 1);
            }
            return Some(i);
        }
        i = i + 1;
    }
    assert(legs@.take(i as int) =~= legs@);
    None
}

/// The id of the first direction with the identifier.
fn find_direction(dirs: &Vec<RouteDirection>, ident: &str) -> (r: Option<i32>)
    ensures
        r == (match first_index(directions_view(dirs@), has_identifier(ident@)) {
            Some(i) => Some(directions_view(dirs@)[i].id),
            None => None,
        }),
{
    let ghost dv = directions_view(dirs@);
    let ghost p = has_identifier(ident@);
    let mut i: usize = 0;
    while i < dirs.len()
        invariant
            i <= dirs@.len(),
            dv == directions_view(dirs@),
            p == has_identifier(ident@),
            first_index(dv.take(i as int), p) is None,
        decreases dirs@.len() - i,
    {
        proof {
            assert(dv.take(i + 1).drop_last() =~= dv.take(i as int));
            assert(dv.take(i + 1).last() == dirs@[i as int]@);
        }
        if text_eq(dirs[i].identifier.as_str(), ident) {
            proof {
                lemma_first_index_prefix(dv, p, i + 1);
            }
            return Some(dirs[i].id);
        }
        i = i + 1;
    }
    assert(dv.take(i as int) =~= dv);
    None
}

/// Appends the trip stops of one journey.
fn push_journey_rows(
    out: &mut Vec<TripStop>,
    stops: &Vec<RawFahrplanStop>,
    legs: &Vec<DirectionLeg>,
    direction_id: Option<i32>,
    trip_id: i32,
    first_id: i32,
)
    requires
        times_readable(stop_views(stops@)),
        stops@.len() < i16::MAX,
        first_id + stops@.len() <= i32::MAX,
    ensures
        final(out)@ == old(out)@ + journey_rows(
            stop_views(stops@),
            stop_times(stop_views(stops@), legs@, direction_id),
            trip_id as int,
            first_id as int,
        ),
{
    let ghost sv = stop_views(stops@);
    let ghost base = out@;
    let mut previous: Option<ClockTime> = None;
    let mut j: usize = 0;
    while j < stops.len()
        invariant
            j <= stops@.len(),
            stops@.len() < i16::MAX,
            first_id + stops@.len() <= i32::MAX,
            sv == stop_views(stops@),
            times_readable(sv),
            out@ == base + journey_rows(sv.take(j as int), stop_times(sv.take(j as int), legs@, direction_id), trip_id as int, first_id as int),
            j > 0 ==> previous == stop_times(sv.take(j as int), legs@, direction_id).last().1,
            previous matches Some(c) ==> c.wf(),
        decreases stops@.len() - j,
    {
        let ghost prefix = sv.take(j as int);
        let ghost next = sv.take(j + 1);
        proof {
            assert(next.drop_last() =~= prefix);
            assert(next.last() == stops@[j as int]@);
            assert(sv[j as int] == stops@[j as int]@);
            assert(time_text_ok(sv[j as int].arrival_time));
            lemma_stop_times_len(prefix, legs@, direction_id);
            if j > 0 {
                assert(next[j - 1] == stops@[j - 1]@);
            }
        }
        let estimate: Option<ClockTime> = if j > 0 {
            match (direction_id, previous) {
                (Some(d), Some(p)) => match find_leg(legs, d, stops[j - 1].id, stops[j].id) {
                    Some(i) => Some(p.add_seconds(legs[i].duration)),
                    None => None,
                },
                _ => None,
            }
        } else {
            None
        };
        let times = stop_time_of(&stops[j], estimate);
        let row = TripStop {
            id: first_id + j as i32,
            stop_id: stops[j].id,
            trip_id,
            sequence: (j + 1) as i16,
            arrival_time: times.0,
            departure_time: times.1,
        };
        out.push(row);
        previous = times.1;
        proof {
            lemma_stop_times_len(next, legs@, direction_id);
            let t = stop_times(next, legs@, direction_id);
            assert(t == stop_times(prefix, legs@, direction_id).push(times));
            assert(journey_rows(next, t, trip_id as int, first_id as int) =~= journey_rows(
                prefix,
                stop_times(prefix, legs@, direction_id),
                trip_id as int,
                first_id as int,
            ).push(row));
        }
        j = j + 1;
    }
    assert(sv.take(j as int) =~= sv);
}

impl HRDF {
    /// Trip stops with the schedule's times: trip `k + 1` holds journey
    /// `k`'s stops, ids run on from 1 across journeys.
    pub fn to_trip_stops(&self, fahrplans: &Vec<Fahrplan>) -> (r: Vec<TripStop>)
        requires
            stops_buildable(fahrplans_view(fahrplans@)),
        ensures
            r@ == trip_stop_rows(
                fahrplans_view(fahrplans@),
                Seq::empty(),
                Seq::new(fahrplans@.len(), |k: int| None::<i32>),
            ),
    {
        let legs: Vec<DirectionLeg> = Vec::new();
        let ghost fs = fahrplans_view(fahrplans@);
        let ghost dirs = Seq::new(fahrplans@.len(), |k: int| None::<i32>);
        let mut out: Vec<TripStop> = Vec::new();
        let mut k: usize = 0;
        while k < fahrplans.len()
            invariant
                k <= fs.len(),
                fs == fahrplans_view(fahrplans@),
                stops_buildable(fs),
                legs@ == Seq::<DirectionLeg>::empty(),
                dirs == Seq::new(fahrplans@.len(), |k: int| None::<i32>),
                out@ == trip_stop_rows(fs.take(k as int), legs@, dirs.take(k as int)),
                out@.len() == total_stops(fs.take(k as int)),
            decreases fs.len() - k,
        {
            let f = &fahrplans[k];
            proof {
                assert(fs.take(k + 1).drop_last() =~= fs.take(k as int));
                assert(dirs.take(k + 1).drop_last() =~= dirs.take(k as int));
                assert(fs[k as int] == f@);
                assert(f@.stops =~= stop_views(f.stops@));
                crate::repository::trips::lemma_total_stops_prefix(fs, k as int);
                assert(times_readable(fs[k as int].stops));
            }
            let first_id = (out.len() + 1) as i32;
            push_journey_rows(&mut out, &f.stops, &legs, None, (k + 1) as i32, first_id);
            proof {
                lemma_stop_times_len(f@.stops, legs@, None);
            }
            k = k + 1;
        }
        assert(fs.take(k as int) =~= fs);
        assert(dirs.take(k as int) =~= dirs);
        out
    }

    /// Trip stops with arrivals reconciled against the measured legs of the
    /// direction each journey follows (see `stop_times`); a journey whose
    /// direction is not listed, or a stop pair without a leg, keeps the
    /// schedule's times. Trip `k + 1` holds journey `k`'s stops, ids run on
    /// from 1 across journeys.
    pub fn get_trip_stops_with_directions(
        &self,
        fahrplans: &Vec<Fahrplan>,
        directions: &Vec<RouteDirection>,
        legs: &Vec<DirectionLeg>,
    ) -> (r: Vec<TripStop>)
        requires
            stops_buildable(fahrplans_view(fahrplans@)),
        ensures
            r@ == trip_stop_rows(
                fahrplans_view(fahrplans@),
                legs@,
                journey_directions(fahrplans_view(fahrplans@), directions_view(directions@)),
            ),
    {
        let ghost fs = fahrplans_view(fahrplans@);
        let ghost dirs = journey_directions(fs, directions_view(directions@));
        let mut out: Vec<TripStop> = Vec::new();
        let mut k: usize = 0;
        while k < fahrplans.len()
            invariant
                k <= fs.len(),
                fs == fahrplans_view(fahrplans@),
                stops_buildable(fs),
                dirs == journey_directions(fs, directions_view(directions@)),
                out@ == trip_stop_rows(fs.take(k as int), legs@, dirs.take(k as int)),
                out@.len() == total_stops(fs.take(k as int)),
            decreases fs.len() - k,
        {
            let f = &fahrplans[k];
            proof {
                assert(fs.take(k + 1).drop_last() =~= fs.take(k as int));
                assert(dirs.take(k + 1).drop_last() =~= dirs.take(k as int));
                assert(fs[k as int] == f@);
                assert(f@.stops =~= stop_views(f.stops@));
                crate::repository::trips::lemma_total_stops_prefix(fs, k as int);
                assert(times_readable(fs[k as int].stops));
            }
            let ident = stop_sequence_identifier(&f.stops);
            let direction_id = find_direction(directions, ident.as_str());
            assert(direction_id == dirs[k as int]);
            let first_id = (out.len() + 1) as i32;
            push_journey_rows(&mut out, &f.stops, legs, direction_id, (k + 1) as i32, first_id);
            proof {
                lemma_stop_times_len(f@.stops, legs@, direction_id);
            }
            k = k + 1;
        }
        assert(fs.take(k as int) =~= fs);
        assert(dirs.take(k as int) =~= dirs);
        out
    }
}

} // verus!
