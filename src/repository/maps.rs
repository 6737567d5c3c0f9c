//! The part of the routing lookup that does not talk to the service: which
//! requests to make for a direction, and how their answers become legs and
//! steps.
use crate::model::direction_leg::DirectionLeg;
use crate::model::leg_step::LegStep;
use vstd::prelude::*;

verus! {

/// Most waypoints the routing service takes in one request.
pub const MAX_WAYPOINTS: usize = 25;

/// Access to the routing service.
pub struct Maps {
    pub api_key: String,
}

/// Distance and duration of one step of a routed leg.
#[derive(Debug, Clone, Copy, PartialEq, Eq, Structural)]
pub struct StepMeasure {
    pub distance: i32,
    pub duration: i32,
    /// Where the caller keeps the step's coordinates.
    pub geometry: usize,
}

/// One leg of a routing answer, with its steps in order.
pub struct LegMeasure {
    pub distance: i32,
    pub duration: i32,
    pub steps: Vec<StepMeasure>,
}

pub ghost struct LegMeasureView {
    pub distance: i32,
    pub duration: i32,
    pub steps: Seq<StepMeasure>,
}

impl View for LegMeasure {
    type V = LegMeasureView;

    open spec fn view(&self) -> LegMeasureView {
        LegMeasureView { distance: self.distance, duration: self.duration, steps: self.steps@ }
    }
}

pub open spec fn answers_view(r: Seq<Vec<LegMeasure>>) -> Seq<Seq<LegMeasureView>> {
    r.map_values(|a: Vec<LegMeasure>| a@.map_values(|m: LegMeasure| m@))
}

/// Request `c` of a stop sequence: its stops from `25 c`, at most 25.
pub open spec fn chunk(s: Seq<i32>, c: int) -> Seq<i32> {
    let lo = MAX_WAYPOINTS * c;
    let hi = if lo + MAX_WAYPOINTS < s.len() { lo + MAX_WAYPOINTS } else { s.len() as int };
    s.subrange(lo, hi)
}

pub open spec fn chunk_count(n: int) -> int {
    (n + MAX_WAYPOINTS - 1) / MAX_WAYPOINTS as int
}

/// The legs an answer gives to one request: one between each two
/// consecutive stops of the request, as far as the answer goes.
pub open spec fn kept_legs(stops: Seq<i32>, answer: Seq<LegMeasureView>) -> Seq<(i32, i32, LegMeasureView)> {
    let n = if stops.len() > 0 { stops.len() - 1 } else { 0 };
    let k = if answer.len() < n { answer.len() as int } else { n };
    Seq::new(k as nat, |t: int| (stops[t], stops[t + 1], answer[t]))
}

/// The legs of every request, request after request; a request without an
/// answer (a failed one) gives none.
pub open spec fn all_kept_legs(chunks: Seq<Seq<i32>>, answers: Seq<Seq<LegMeasureView>>) -> Seq<(i32, i32, LegMeasureView)>
    decreases chunks.len(),
{
    if chunks.len() == 0 {
        Seq::empty()
    } else {
        let c = chunks.len() - 1;
        let answer = if c < answers.len() { answers[c] } else { Seq::empty() };
        all_kept_legs(chunks.drop_last(), answers) + kept_legs(chunks.last(), answer)
    }
}

pub open spec fn total_steps(legs: Seq<(i32, i32, LegMeasureView)>) -> int
    decreases legs.len(),
{
    if legs.len() == 0 {
        0
    } else {
        total_steps(legs.drop_last()) + legs.last().2.steps.len()
    }
}

/// The numbering fits the ids and sequence numbers of legs and steps.
pub open spec fn numbering_fits(legs: Seq<(i32, i32, LegMeasureView)>, first_leg_id: int, first_step_id: int) -> bool {
    &&& 1 <= first_leg_id && first_leg_id + legs.len() <= i32::MAX
    &&& legs.len() < i16::MAX
    &&& 1 <= first_step_id && first_step_id + total_steps(legs) <= i32::MAX
    &&& forall|i: int| 0 <= i < legs.len() ==> (#[trigger] legs[i]).2.steps.len() < i16::MAX
}

/// The direction legs, numbered on from `first_leg_id`, sequence from 1.
pub open spec fn leg_rows(direction_id: i32, legs: Seq<(i32, i32, LegMeasureView)>, first_leg_id: int) -> Seq<DirectionLeg> {
    Seq::new(
        legs.len(),
        |i: int|
            DirectionLeg {
                id: (first_leg_id + i) as i32,
                direction_id,
                distance: legs[i].2.distance,
                duration: legs[i].2.duration,
                sequence: (i + 1) as i16,
                origin_id: legs[i].0,
                destination_id: legs[i].1,
            },
    )
}

/// The steps of every leg, leg after leg, ids from `first_step_id`.
pub open spec fn step_rows(legs: Seq<(i32, i32, LegMeasureView)>, first_leg_id: int, first_step_id: int) -> Seq<LegStep>
    decreases legs.len(),
{
    if legs.len() == 0 {
        Seq::empty()
    } else {
        let p = step_rows(legs.drop_last(), first_leg_id, first_step_id);
        let steps = legs.last().2.steps;
        p + Seq::new(
            steps.len(),
            |j: int|
                LegStep {
                    id: (first_step_id + p.len() + j) as i32,
                    leg_id: (first_leg_id + legs.len() - 1) as i32,
                    distance: steps[j].distance,
                    duration: steps[j].duration,
                    sequence: (j + 1) as i16,
                    geometry: steps[j].geometry,
                },
        )
    }
}

proof fn lemma_total_steps_prefix(legs: Seq<(i32, i32, LegMeasureView)>, i: int)
    requires
        0 <= i < legs.len(),
    ensures
        total_steps(legs.take(i + 1)) == total_steps(legs.take(i)) + legs[i].2.steps.len(),
        total_steps(legs.take(i + 1)) <= total_steps(legs),
    decreases legs.len() - i,
{
    assert(legs.take(i + 1).drop_last() =~= legs.take(i));
    if i + 1 < legs.len() {
        lemma_total_steps_prefix(legs, i + 1);
    } else {
        assert(legs.take(i + 1) =~= legs);
    }
}

/// Where a kept leg's measure is: request and position in its answer.
pub struct LegSource {
    pub origin_id: i32,
    pub destination_id: i32,
    pub request: usize,
    pub position: usize,
}

pub open spec fn sources_view(s: Seq<LegSource>, answers: Seq<Seq<LegMeasureView>>) -> Seq<(i32, i32, LegMeasureView)> {
    s.map_values(|x: LegSource| (x.origin_id, x.destination_id, answers[x.request as int][x.position as int]))
}

pub open spec fn chunks_view(c: Seq<Vec<i32>>) -> Seq<Seq<i32>> {
    c.map_values(|v: Vec<i32>| v@)
}

pub open spec fn sources_valid(s: Seq<LegSource>, answers: Seq<Vec<LegMeasure>>) -> bool {
    forall|i: int|
        0 <= i < s.len() ==> (#[trigger] s[i]).request < answers.len() && s[i].position
            < answers[s[i].request as int]@.len()
}

/// The kept legs of every request, as places in the answers.
fn kept_leg_sources(chunks: &Vec<Vec<i32>>, answers: &Vec<Vec<LegMeasure>>) -> (r: Vec<LegSource>)
    ensures
        sources_valid(r@, answers@),
        sources_view(r@, answers_view(answers@)) == all_kept_legs(chunks_view(chunks@), answers_view(answers@)),
{
    let ghost cv = chunks_view(chunks@);
    let ghost av = answers_view(answers@);
    let mut out: Vec<LegSource> = Vec::new();
    let mut c: usize = 0;
    while c < chunks.len()
        invariant
            c <= chunks@.len(),
            cv == chunks_view(chunks@),
            av == answers_view(answers@),
            sources_valid(out@, answers@),
            sources_view(out@, av) == all_kept_legs(cv.take(c as int), av),
        decreases chunks@.len() - c,
    {
        let stops = &chunks[c];
        proof {
            assert(cv.take(c + 1).drop_last() =~= cv.take(c as int));
            assert(cv.take(c + 1).last() == stops@);
        }
        let ghost before = out@;
        let ghost answer = if c < av.len() { av[c as int] } else { Seq::empty() };
        let n: usize = if stops.len() > 0 { stops.len() - 1 } else { 0 };
        let available: usize = if c < answers.len() { answers[c].len() } else { 0 };
        let k: usize = if available < n { available } else { n };
        let mut t: usize = 0;
        while t < k
            invariant
                t <= k,
                k <= n,
                n == (if stops@.len() > 0 { stops@.len() - 1 } else { 0 }),
                k == (if answer.len() < n { answer.len() as int } else { n as int }),
                k > 0 ==> c < answers@.len() && k <= answers@[c as int]@.len(),
                av == answers_view(answers@),
                answer == (if c < av.len() { av[c as int] } else { Seq::empty() }),
                sources_valid(out@, answers@),
                sources_view(out@, av) == all_kept_legs(cv.take(c as int), av) + kept_legs(stops@, answer).take(t as int),
            decreases k - t,
        {
            let ghost mid = out@;
            out.push(LegSource { origin_id: stops[t], destination_id: stops[t + 1], request: c, position: t });
            proof {
                assert(answer[t as int] == answers@[c as int]@[t as int]@);
                assert(sources_view(out@, av) =~= sources_view(mid, av).push(kept_legs(stops@, answer)[t as int]));
                assert(kept_legs(stops@, answer).take(t + 1) =~= kept_legs(stops@, answer).take(t as int).push(kept_legs(stops@, answer)[t as int]));
            }
            t = t + 1;
        }
        assert(kept_legs(stops@, answer).take(t as int) =~= kept_legs(stops@, answer));
        c = c + 1;
    }
    assert(cv.take(c as int) =~= cv);
    out
}

impl Maps {
    /// Folds the answers to a direction's requests into its legs and their
    /// steps. Answer `c` is that of request `c` (empty when it failed); leg
    /// and step ids run on from the given ones, leg sequence numbers run on
    /// across requests from 1. `None` when the numbering would not fit.
    pub fn fold_legs(
        &self,
        direction_id: i32,
        chunks: &Vec<Vec<i32>>,
        answers: &Vec<Vec<LegMeasure>>,
        first_leg_id: i32,
        first_step_id: i32,
    ) -> (r: Option<(Vec<DirectionLeg>, Vec<LegStep>)>)
        ensures
            ({
                let kept = all_kept_legs(chunks_view(chunks@), answers_view(answers@));
                match r {
                    Some((legs, steps)) => numbering_fits(kept, first_leg_id as int, first_step_id as int)
                        && legs@ == leg_rows(direction_id, kept, first_leg_id as int)
                        && steps@ == step_rows(kept, first_leg_id as int, first_step_id as int),
                    None => !numbering_fits(kept, first_leg_id as int, first_step_id as int),
                }
            }),
    {
        let ghost av = answers_view(answers@);
        let sources = kept_leg_sources(chunks, answers);
        let ghost kept = sources_view(sources@, av);
        let m = sources.len();
        if first_leg_id < 1 || first_step_id < 1 || m >= 32767 || (first_leg_id as i64 + m as i64) > i32::MAX as i64 {
            return None;
        }
        let mut total: i64 = 0;
        let mut i: usize = 0;
        while i < m
            invariant
                i <= m,
                m == sources@.len(),
                m < 32767,
                sources_valid(sources@, answers@),
                kept == sources_view(sources@, av),
                kept == all_kept_legs(chunks_view(chunks@), answers_view(answers@)),
                av == answers_view(answers@),
                total == total_steps(kept.take(i as int)),
                0 <= total <= 32767 * i,
                forall|q: int| 0 <= q < i ==> (#[trigger] kept[q]).2.steps.len() < i16::MAX,
            decreases m - i,
        {
            let src = &sources[i];
            let len = answers[src.request][src.position].steps.len();
            proof {
                assert(kept.take(i + 1).drop_last() =~= kept.take(i as int));
                assert(kept[i as int].2 == answers@[src.request as int]@[src.position as int]@);
            }
            if len >= 32767 {
                assert(!(kept[i as int].2.steps.len() < i16::MAX));
                assert(!numbering_fits(kept, first_leg_id as int, first_step_id as int));
                return None;
            }
            total = total + len as i64;
            i = i + 1;
        }
        assert(kept.take(i as int) =~= kept);
        if first_step_id as i64 + total > i32::MAX as i64 {
            return None;
        }
        assert(kept.take(0) =~= Seq::<(i32, i32, LegMeasureView)>::empty());
        let mut legs: Vec<DirectionLeg> = Vec::new();
        let mut steps: Vec<LegStep> = Vec::new();
        let mut i: usize = 0;
        while i < m
            invariant
                i <= m,
                m == sources@.len(),
                sources_valid(sources@, answers@),
                kept == sources_view(sources@, av),
                kept == all_kept_legs(chunks_view(chunks@), answers_view(answers@)),
                av == answers_view(answers@),
                numbering_fits(kept, first_leg_id as int, first_step_id as int),
                legs@ == leg_rows(direction_id, kept.take(i as int), first_leg_id as int),
                steps@ == step_rows(kept.take(i as int), first_leg_id as int, first_step_id as int),
                steps@.len() == total_steps(kept.take(i as int)),
                total_steps(kept.take(i as int)) <= total_steps(kept),
            decreases m - i,
        {
            let src = &sources[i];
            let measure = &answers[src.request][src.position];
            proof {
                assert(kept.take(i + 1).drop_last() =~= kept.take(i as int));
                assert(kept[i as int].2 == measure@);
                lemma_total_steps_prefix(kept, i as int);
            }
            let leg_id: i32 = first_leg_id + i as i32;
            legs.push(
                DirectionLeg {
                    id: leg_id,
                    direction_id,
                    distance: measure.distance,
                    duration: measure.duration,
                    sequence: (i + 1) as i16,
                    origin_id: src.origin_id,
                    destination_id: src.destination_id,
                },
            );
            assert(legs@ =~= leg_rows(direction_id, kept.take(i + 1), first_leg_id as int));
            let base: i32 = first_step_id + steps.len() as i32;
            let ghost before = steps@;
            let mut j: usize = 0;
            while j < measure.steps.len()
                invariant
                    j <= measure.steps@.len(),
                    measure.steps@.len() < i16::MAX,
                    base as int == first_step_id + before.len(),
                    base as int + measure.steps@.len() <= i32::MAX,
                    steps@ == before + Seq::new(
                        j as nat,
                        |q: int|
                            LegStep {
                                id: (base + q) as i32,
                                leg_id,
                                distance: measure.steps@[q].distance,
                                duration: measure.steps@[q].duration,
                                sequence: (q + 1) as i16,
                                geometry: measure.steps@[q].geometry,
                            },
                    ),
                decreases measure.steps@.len() - j,
            {
                let st = measure.steps[j];
                steps.push(
                    LegStep {
                        id: base + j as i32,
                        leg_id,
                        distance: st.distance,
                        duration: st.duration,
                        sequence: (j + 1) as i16,
                        geometry: st.geometry,
                    },
                );
                j = j + 1;
                assert(steps@ =~= before + Seq::new(
                    j as nat,
                    |q: int|
                        LegStep {
                            id: (base + q) as i32,
                            leg_id,
                            distance: measure.steps@[q].distance,
                            duration: measure.steps@[q].duration,
                            sequence: (q + 1) as i16,
                            geometry: measure.steps@[q].geometry,
                        },
                ));
            }
            assert(steps@ =~= step_rows(kept.take(i + 1), first_leg_id as int, first_step_id as int));
            i = i + 1;
        }
        assert(kept.take(i as int) =~= kept);
        Some((legs, steps))
    }

    /// The requests for a stop sequence: consecutive runs of at most 25
    /// stops, in order.
    pub fn waypoint_chunks(&self, stops: &Vec<i32>) -> (r: Vec<Vec<i32>>)
        ensures
            r@.len() == chunk_count(stops@.len() as int),
            forall|c: int| 0 <= c < r@.len() ==> (#[trigger] r@[c])@ == chunk(stops@, c),
    {
        let n = stops.len();
        let count: usize = n / MAX_WAYPOINTS + if n % MAX_WAYPOINTS > 0 { 1 } else { 0 };
        assert(count == chunk_count(n as int)) by (nonlinear_arith)
            requires
                count == n / 25 + if n % 25 > 0 { 1int } else { 0int },
                MAX_WAYPOINTS == 25,
        ;
        let mut out: Vec<Vec<i32>> = Vec::new();
        let mut c: usize = 0;
        while c < count
            invariant
                n == stops@.len(),
                count == chunk_count(n as int),
                c <= count,
                out@.len() == c,
                forall|q: int| 0 <= q < out@.len() ==> (#[trigger] out@[q])@ == chunk(stops@, q),
            decreases count - c,
        {
            assert(MAX_WAYPOINTS * c < n) by (nonlinear_arith)
                requires
                    c < count,
                    count == (n + 24) / 25,
                    MAX_WAYPOINTS == 25,
            ;
            let lo: usize = MAX_WAYPOINTS * c;
            let hi: usize = if n - lo > MAX_WAYPOINTS { lo + MAX_WAYPOINTS } else { n };
            let mut part: Vec<i32> = Vec::new();
            let mut i: usize = lo;
            while i < hi
                invariant
                    lo <= i <= hi <= n,
                    n == stops@.len(),
                    part@ == stops@.subrange(lo as int, i as int),
                decreases hi - i,
            {
                part.push(stops[i]);
                i = i + 1;
                assert(part@ =~= stops@.subrange(lo as int, i as int));
            }
            out.push(part);
            c = c + 1;
        }
        out
    }
}

} // verus!
