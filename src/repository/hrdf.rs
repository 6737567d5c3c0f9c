//! The national timetable in its fixed-column form: journeys assembled from
//! the master schedule, and the sets of calendars and stops they refer to.
use crate::repository::records::{
    RawFahrplanA, RawFahrplanG, RawFahrplanL, RawFahrplanR, RawFahrplanStop,
    RawFahrplanStopView, RawFahrplanZ, RawFahrplanZView,
};
use crate::text::{grapheme_clusters, has_prefix, starts_with_text, text_eq};
use vstd::prelude::*;

verus! {

/// Calendar id a journey gets when its calendar-reference block is present
/// but does not decode.
pub const DEFAULT_BITFIELD_ID: i32 = 17;

/// The timetable of one operator.
pub struct HRDF {
    /// Operator whose journeys are kept.
    pub agency_id: String,
}

/// One journey: header, the four detail blocks, and its stop-time lines in
/// file order (never empty).
pub struct Fahrplan {
    pub z: RawFahrplanZ,
    pub g: RawFahrplanG,
    pub a: RawFahrplanA,
    pub l: RawFahrplanL,
    pub r: RawFahrplanR,
    pub stops: Vec<RawFahrplanStop>,
}

pub ghost struct FahrplanView {
    pub z: RawFahrplanZView,
    pub g: RawFahrplanG,
    pub a: RawFahrplanA,
    pub l: RawFahrplanL,
    pub r: RawFahrplanR,
    pub stops: Seq<RawFahrplanStopView>,
}

impl View for Fahrplan {
    type V = FahrplanView;

    open spec fn view(&self) -> FahrplanView {
        FahrplanView {
            z: self.z@,
            g: self.g,
            a: self.a,
            l: self.l,
            r: self.r,
            stops: self.stops@.map_values(|s: RawFahrplanStop| s@),
        }
    }
}

pub open spec fn fahrplans_view(v: Seq<Fahrplan>) -> Seq<FahrplanView> {
    v.map_values(|f: Fahrplan| f@)
}

pub open spec fn lines_view(v: Seq<String>) -> Seq<Seq<char>> {
    v.map_values(|s: String| s@)
}

/// A journey being read: its header, the detail blocks met so far, and its
/// stop-time lines.
pub struct JourneyAccumulator {
    pub z: RawFahrplanZ,
    pub g: Option<RawFahrplanG>,
    pub a: Option<RawFahrplanA>,
    pub l: Option<RawFahrplanL>,
    pub r: Option<RawFahrplanR>,
    pub stops: Vec<RawFahrplanStop>,
}

pub ghost struct AccumulatorView {
    pub z: RawFahrplanZView,
    pub g: Option<RawFahrplanG>,
    pub a: Option<RawFahrplanA>,
    pub l: Option<RawFahrplanL>,
    pub r: Option<RawFahrplanR>,
    pub stops: Seq<RawFahrplanStopView>,
}

impl View for JourneyAccumulator {
    type V = AccumulatorView;

    open spec fn view(&self) -> AccumulatorView {
        AccumulatorView {
            z: self.z@,
            g: self.g,
            a: self.a,
            l: self.l,
            r: self.r,
            stops: self.stops@.map_values(|s: RawFahrplanStop| s@),
        }
    }
}

pub open spec fn default_calendar() -> RawFahrplanA {
    RawFahrplanA { origin_id: 0, destination_id: 0, bit_field_number: DEFAULT_BITFIELD_ID }
}

/// A control line that the journey skips without ending.
pub open spec fn is_ignorable(line: Seq<char>) -> bool {
    has_prefix(line, "*A NF"@) || has_prefix(line, "*A SM"@) || has_prefix(line, "*A SD"@)
}

/// What a line does to an open journey: the journey with the line taken in,
/// or `None` when the line ends it. A block keeps its first occurrence; a
/// calendar reference that does not decode gives the default calendar; a
/// stop-time line that does not decode is left out.
pub open spec fn absorb(acc: AccumulatorView, line: Seq<char>) -> Option<AccumulatorView> {
    let g = grapheme_clusters(line);
    if has_prefix(line, "*G"@) {
        Some(if acc.g is None { AccumulatorView { g: RawFahrplanG::spec_decode(g), ..acc } } else { acc })
    } else if has_prefix(line, "*A VE"@) {
        Some(
            if acc.a is None {
                AccumulatorView {
                    a: Some(
                        match RawFahrplanA::spec_decode(g) {
                            Some(a) => a,
                            None => default_calendar(),
                        },
                    ),
                    ..acc
                }
            } else {
                acc
            },
        )
    } else if has_prefix(line, "*L"@) {
        Some(if acc.l is None { AccumulatorView { l: RawFahrplanL::spec_decode(g), ..acc } } else { acc })
    } else if has_prefix(line, "*R"@) {
        Some(if acc.r is None { AccumulatorView { r: RawFahrplanR::spec_decode(g), ..acc } } else { acc })
    } else if !has_prefix(line, "*"@) {
        Some(
            match RawFahrplanStop::spec_decode(g) {
                Some(s) => AccumulatorView { stops: acc.stops.push(s), ..acc },
                None => acc,
            },
        )
    } else if is_ignorable(line) {
        Some(acc)
    } else {
        None
    }
}

/// The journey an accumulation yields: one when every block is there and it
/// has stops, none otherwise.
pub open spec fn finish(acc: AccumulatorView) -> Seq<FahrplanView> {
    if acc.g is Some && acc.a is Some && acc.l is Some && acc.r is Some && acc.stops.len() > 0 {
        seq![
            FahrplanView {
                z: acc.z,
                g: acc.g->0,
                a: acc.a->0,
                l: acc.l->0,
                r: acc.r->0,
                stops: acc.stops,
            },
        ]
    } else {
        Seq::empty()
    }
}

/// The journey a line opens: a header that decodes and names the operator.
pub open spec fn start(line: Seq<char>, agency: Seq<char>) -> Option<AccumulatorView> {
    if has_prefix(line, "*Z"@) {
        match RawFahrplanZ::spec_decode(grapheme_clusters(line)) {
            Some(z) => if z.agency_id == agency {
                Some(
                    AccumulatorView {
                        z,
                        g: None,
                        a: None,
                        l: None,
                        r: None,
                        stops: Seq::empty(),
                    },
                )
            } else {
                None
            },
            None => None,
        }
    } else {
        None
    }
}

/// Journeys completed so far, and the one being read.
pub ghost struct AssemblyView {
    pub done: Seq<FahrplanView>,
    pub open: Option<AccumulatorView>,
}

/// One line of the schedule file. A line that ends a journey is read again
/// as a possible header.
pub open spec fn step(st: AssemblyView, line: Seq<char>, agency: Seq<char>) -> AssemblyView {
    match st.open {
        Some(acc) => match absorb(acc, line) {
            Some(next) => AssemblyView { done: st.done, open: Some(next) },
            None => AssemblyView { done: st.done + finish(acc), open: start(line, agency) },
        },
        None => AssemblyView { done: st.done, open: start(line, agency) },
    }
}

pub open spec fn assemble_prefix(lines: Seq<Seq<char>>, agency: Seq<char>) -> AssemblyView
    decreases lines.len(),
{
    if lines.len() == 0 {
        AssemblyView { done: Seq::empty(), open: None }
    } else {
        step(assemble_prefix(lines.drop_last(), agency), lines.last(), agency)
    }
}

/// The journeys of an operator in a schedule file, in file order.
pub open spec fn assemble(lines: Seq<Seq<char>>, agency: Seq<char>) -> Seq<FahrplanView> {
    let st = assemble_prefix(lines, agency);
    match st.open {
        Some(acc) => st.done + finish(acc),
        None => st.done,
    }
}

/// How many lines open a journey of the operator.
pub open spec fn opened_journeys(lines: Seq<Seq<char>>, agency: Seq<char>) -> nat
    decreases lines.len(),
{
    if lines.len() == 0 {
        0
    } else {
        opened_journeys(lines.drop_last(), agency) + if start(lines.last(), agency) is Some {
            1nat
        } else {
            0nat
        }
    }
}

proof fn lemma_assemble_prefix_count(lines: Seq<Seq<char>>, agency: Seq<char>)
    ensures
        ({
            let st = assemble_prefix(lines, agency);
            st.done.len() + (if st.open is Some { 1int } else { 0int }) <= opened_journeys(lines, agency)
        }),
    decreases lines.len(),
{
    if lines.len() > 0 {
        lemma_assemble_prefix_count(lines.drop_last(), agency);
        let prev = assemble_prefix(lines.drop_last(), agency);
        match prev.open {
            Some(acc) => {
                assert(finish(acc).len() <= 1);
            },
            None => {},
        }
    }
}

/// No more journeys come out of a schedule file than it opens: the
/// difference is the journeys dropped as incomplete.
pub proof fn lemma_retained_at_most_opened(lines: Seq<Seq<char>>, agency: Seq<char>)
    ensures
        assemble(lines, agency).len() <= opened_journeys(lines, agency),
{
    lemma_assemble_prefix_count(lines, agency);
    let st = assemble_prefix(lines, agency);
    match st.open {
        Some(acc) => {
            assert(finish(acc).len() <= 1);
        },
        None => {},
    }
}

/// A journey whose line-reference block is missing is not emitted at all.
pub proof fn lemma_journey_without_line_dropped(acc: AccumulatorView)
    requires
        acc.l is None,
    ensures
        finish(acc) == Seq::<FahrplanView>::empty(),
{
}

impl JourneyAccumulator {
    fn open(z: RawFahrplanZ) -> (r: Self)
        ensures
            r@ == (AccumulatorView {
                z: z@,
                g: None,
                a: None,
                l: None,
                r: None,
                stops: Seq::empty(),
            }),
    {
        let r = JourneyAccumulator { z, g: None, a: None, l: None, r: None, stops: Vec::new() };
        assert(r@.stops =~= Seq::<RawFahrplanStopView>::empty());
        r
    }

    /// Takes one line in; `false` when the line ends the journey, which is
    /// then left as it was.
    fn absorb(&mut self, line: &str) -> (taken: bool)
        ensures
            taken == (absorb(old(self)@, line@) is Some),
            taken ==> final(self)@ == absorb(old(self)@, line@)->0,
            !taken ==> final(self)@ == old(self)@,
    {
        if starts_with_text(line, "*G") {
            if self.g.is_none() {
                self.g = match RawFahrplanG::from_line(line) {
                    Ok(g) => Some(g),
                    Err(_) => None,
                };
            }
            true
        } else if starts_with_text(line, "*A VE") {
            if self.a.is_none() {
                self.a = match RawFahrplanA::from_line(line) {
                    Ok(a) => Some(a),
                    Err(_) => Some(
                        RawFahrplanA {
                            origin_id: 0,
                            destination_id: 0,
                            bit_field_number: DEFAULT_BITFIELD_ID,
                        },
                    ),
                };
            }
            true
        } else if starts_with_text(line, "*L") {
            if self.l.is_none() {
                self.l = match RawFahrplanL::from_line(line) {
                    Ok(l) => Some(l),
                    Err(_) => None,
                };
            }
            true
        } else if starts_with_text(line, "*R") {
            if self.r.is_none() {
                self.r = match RawFahrplanR::from_line(line) {
                    Ok(r) => Some(r),
                    Err(_) => None,
                };
            }
            true
        } else if !starts_with_text(line, "*") {
            match RawFahrplanStop::from_line(line) {
                Ok(s) => {
                    let ghost before = self.stops@;
                    self.stops.push(s);
                    assert(self.stops@.map_values(|s: RawFahrplanStop| s@) =~= before.map_values(
                        |s: RawFahrplanStop| s@,
                    ).push(s@));
                },
                Err(_) => {},
            }
            true
        } else if starts_with_text(line, "*A NF") || starts_with_text(line, "*A SM")
            || starts_with_text(line, "*A SD") {
            true
        } else {
            false
        }
    }

    /// The journey, when every block is there and it has stops.
    fn finish(self) -> (r: Option<Fahrplan>)
        ensures
            match r {
                Some(f) => finish(self@) == seq![f@],
                None => finish(self@) == Seq::<FahrplanView>::empty(),
            },
    {
        if self.stops.len() == 0 {
            return None;
        }
        match (self.g, self.a, self.l, self.r) {
            (Some(g), Some(a), Some(l), Some(r)) => Some(
                Fahrplan { z: self.z, g, a, l, r, stops: self.stops },
            ),
            _ => None,
        }
    }
}

/// The distinct values of a sequence, in order of first occurrence.
pub open spec fn distinct_in_order(s: Seq<i32>) -> Seq<i32>
    decreases s.len(),
{
    if s.len() == 0 {
        Seq::empty()
    } else {
        let d = distinct_in_order(s.drop_last());
        if d.contains(s.last()) {
            d
        } else {
            d.push(s.last())
        }
    }
}

/// The calendar each journey refers to, in journey order.
pub open spec fn calendar_refs(fs: Seq<FahrplanView>) -> Seq<i32> {
    fs.map_values(|f: FahrplanView| f.a.bit_field_number)
}

/// The stops of every journey, journey after journey.
pub open spec fn stop_refs(fs: Seq<FahrplanView>) -> Seq<i32> {
    fs.map_values(|f: FahrplanView| f.stops.map_values(|s: RawFahrplanStopView| s.id)).flatten()
}

/// Whether `v` holds `x`.
pub fn contains_id(v: &Vec<i32>, x: i32) -> (r: bool)
    ensures
        r == v@.contains(x),
{
    let mut i: usize = 0;
    while i < v.len()
        invariant
            i <= v@.len(),
            forall|j: int| 0 <= j < i ==> v@[j] != x,
        decreases v@.len() - i,
    {
        if v[i] == x {
            return true;
        }
        i = i + 1;
    }
    false
}

/// Appends `x` unless `ids` already holds it.
fn push_distinct(ids: &mut Vec<i32>, x: i32)
    ensures
        final(ids)@ == (if old(ids)@.contains(x) {
            old(ids)@
        } else {
            old(ids)@.push(x)
        }),
{
    if !contains_id(ids, x) {
        ids.push(x);
    }
}

impl HRDF {
    /// The calendars the journeys refer to, each once, in order of first
    /// reference.
    pub fn extract_bitfield_ids(&self, fahrplans: &Vec<Fahrplan>) -> (r: Vec<i32>)
        ensures
            r@ == distinct_in_order(calendar_refs(fahrplans_view(fahrplans@))),
    {
        let ghost refs = calendar_refs(fahrplans_view(fahrplans@));
        let mut ids: Vec<i32> = Vec::new();
        let mut k: usize = 0;
        while k < fahrplans.len()
            invariant
                k <= fahrplans@.len(),
                refs == calendar_refs(fahrplans_view(fahrplans@)),
                ids@ == distinct_in_order(refs.take(k as int)),
            decreases fahrplans@.len() - k,
        {
            proof {
                assert(refs.take(k + 1).drop_last() =~= refs.take(k as int));
                assert(refs.take(k + 1).last() == fahrplans@[k as int].a.bit_field_number);
            }
            push_distinct(&mut ids, fahrplans[k].a.bit_field_number);
            k = k + 1;
        }
        assert(refs.take(k as int) =~= refs);
        ids
    }

    /// The stops the journeys call at, each once, in order of first call.
    pub fn extract_stop_ids(&self, fahrplans: &Vec<Fahrplan>) -> (r: Vec<i32>)
        ensures
            r@ == distinct_in_order(stop_refs(fahrplans_view(fahrplans@))),
    {
        let ghost per = fahrplans_view(fahrplans@).map_values(
            |f: FahrplanView| f.stops.map_values(|s: RawFahrplanStopView| s.id),
        );
        let mut ids: Vec<i32> = Vec::new();
        let mut k: usize = 0;
        while k < fahrplans.len()
            invariant
                k <= fahrplans@.len(),
                per == fahrplans_view(fahrplans@).map_values(
                    |f: FahrplanView| f.stops.map_values(|s: RawFahrplanStopView| s.id),
                ),
                ids@ == distinct_in_order(per.take(k as int).flatten()),
            decreases fahrplans@.len() - k,
        {
            let stops = &fahrplans[k].stops;
            let ghost done = per.take(k as int).flatten();
            let ghost these = per[k as int];
            proof {
                assert(per.take(k + 1) =~= per.take(k as int).push(these));
                per.take(k as int).lemma_flatten_push(these);
            }
            let mut j: usize = 0;
            while j < stops.len()
                invariant
                    j <= stops@.len(),
                    these.len() == stops@.len(),
                    forall|q: int| 0 <= q < stops@.len() ==> these[q] == (#[trigger] stops@[q]).id,
                    ids@ == distinct_in_order(done + these.take(j as int)),
                decreases stops@.len() - j,
            {
                proof {
                    assert((done + these.take(j + 1)).drop_last() =~= done + these.take(j as int));
                    assert((done + these.take(j + 1)).last() == stops@[j as int].id);
                }
                push_distinct(&mut ids, stops[j].id);
                j = j + 1;
            }
            assert(these.take(j as int) =~= these);
            k = k + 1;
        }
        assert(per.take(k as int) =~= per);
        ids
    }

    /// The journey a line opens, if it is a header of this operator.
    fn start(&self, line: &str) -> (r: Option<JourneyAccumulator>)
        ensures
            match r {
                Some(acc) => start(line@, self.agency_id@) == Some(acc@),
                None => start(line@, self.agency_id@) is None,
            },
    {
        if !starts_with_text(line, "*Z") {
            return None;
        }
        match RawFahrplanZ::from_line(line) {
            Ok(z) => if text_eq(z.agency_id.as_str(), self.agency_id.as_str()) {
                Some(JourneyAccumulator::open(z))
            } else {
                None
            },
            Err(_) => None,
        }
    }

    /// How many journeys of the operator the schedule file opens, complete
    /// or not.
    pub fn count_journey_headers(&self, lines: &Vec<String>) -> (r: usize)
        ensures
            r == opened_journeys(lines_view(lines@), self.agency_id@),
    {
        let ghost lv = lines_view(lines@);
        let mut count: usize = 0;
        let mut i: usize = 0;
        while i < lines.len()
            invariant
                i <= lines@.len(),
                lv == lines_view(lines@),
                count == opened_journeys(lv.take(i as int), self.agency_id@),
                count <= i,
            decreases lines@.len() - i,
        {
            proof {
                assert(lv.take(i + 1).drop_last() =~= lv.take(i as int));
                assert(lv.take(i + 1).last() == lines@[i as int]@);
            }
            if self.start(lines[i].as_str()).is_some() {
                count = count + 1;
            }
            i = i + 1;
        }
        assert(lv.take(i as int) =~= lv);
        count
    }

    /// Assembles the operator's journeys from the lines of the master
    /// schedule file, in file order.
    pub fn get_fahrplans(&self, lines: &Vec<String>) -> (r: Vec<Fahrplan>)
        ensures
            fahrplans_view(r@) == assemble(lines_view(lines@), self.agency_id@),
    {
        let ghost agency = self.agency_id@;
        let mut done: Vec<Fahrplan> = Vec::new();
        let mut open: Option<JourneyAccumulator> = None;
        let mut i: usize = 0;
        while i < lines.len()
            invariant
                i <= lines@.len(),
                agency == self.agency_id@,
                ({
                    let st = assemble_prefix(lines_view(lines@).subrange(0, i as int), agency);
                    &&& fahrplans_view(done@) == st.done
                    &&& match open {
                        Some(acc) => st.open == Some(acc@),
                        None => st.open is None,
                    }
                }),
            decreases lines@.len() - i,
        {
            let line = lines[i].as_str();
            let ghost prefix = lines_view(lines@).subrange(0, i + 1);
            proof {
                assert(prefix.drop_last() =~= lines_view(lines@).subrange(0, i as int));
                assert(prefix.last() == line@);
            }
            let ghost done_before = done@;
            open = match open {
                Some(mut acc) => {
                    if acc.absorb(line) {
                        Some(acc)
                    } else {
                        match acc.finish() {
                            Some(f) => {
                                done.push(f);
                                assert(fahrplans_view(done@) =~= fahrplans_view(done_before) + seq![f@]);
                            },
                            None => {
                                assert(fahrplans_view(done@) =~= fahrplans_view(done_before) + Seq::<FahrplanView>::empty());
                            },
                        }
                        self.start(line)
                    }
                },
                None => self.start(line),
            };
            i = i + 1;
        }
        assert(lines_view(lines@).subrange(0, i as int) =~= lines_view(lines@));
        match open {
            Some(acc) => {
                let ghost done_before = done@;
                match acc.finish() {
                    Some(f) => {
                        done.push(f);
                        assert(fahrplans_view(done@) =~= fahrplans_view(done_before) + seq![f@]);
                    },
                    None => {
                        assert(fahrplans_view(done@) =~= fahrplans_view(done_before) + Seq::<FahrplanView>::empty());
                    },
                }
            },
            None => {},
        }
        done
    }
}

} // verus!
