//! The stop-event export of the open-data platform, kept to one operator's
//! stops in the chosen transport modes.
use crate::model::line::TransportMode;
use crate::text::text_eq;
use vstd::prelude::*;

verus! {

/// The export of one operator.
pub struct GTFS {
    pub agency_id: String,
}

/// One row of the stop-event export.
pub struct RawHaltestellen {
    /// timetable period
    pub fp_id: u16,
    /// operator
    pub tu_code: String,
    /// operator name
    pub tu_bezeichnung: String,
    /// operator short name
    pub tu_abkuerzung: String,
    /// journey id
    pub fartnummer: String,
    /// stop id (UIC)
    pub bpuic: String,
    /// stop name
    pub bp_bezeichnung: String,
    /// stop short name
    pub bp_abkuerzung: String,
    /// canton
    pub kanton: String,
    /// stop id (Swiss location id)
    pub sloid: String,
    /// transport mode
    pub vm_art: TransportMode,
    /// days of operation
    pub fahrtage: String,
    /// departure time
    pub ab_zeit_kb: String,
    /// arrival time
    pub an_zeit_kb: String,
    /// direction
    pub richtung_text_aggregiert: String,
    /// destination
    pub end_bp_bezeichnung: String,
    /// line number
    pub linie: String,
    /// stop id (internal)
    pub bp_id: String,
}

/// Why an export could not be read.
#[derive(Debug, Clone, Copy, PartialEq, Eq, Structural)]
pub enum ReadError {
    UnableToRead,
    UnableToParse,
}

/// Whether a row belongs to the operator and one of the modes.
pub open spec fn keeps(h: RawHaltestellen, agency: Seq<char>, modes: Seq<TransportMode>) -> bool {
    h.tu_code@ == agency && modes.contains(h.vm_art)
}

/// The rows that belong to the operator and one of the modes, in order.
pub open spec fn kept_rows(rows: Seq<RawHaltestellen>, agency: Seq<char>, modes: Seq<TransportMode>) -> Seq<RawHaltestellen>
    decreases rows.len(),
{
    if rows.len() == 0 {
        Seq::empty()
    } else {
        let p = kept_rows(rows.drop_last(), agency, modes);
        if keeps(rows.last(), agency, modes) {
            p.push(rows.last())
        } else {
            p
        }
    }
}

fn contains_mode(modes: &Vec<TransportMode>, m: TransportMode) -> (r: bool)
    ensures
        r == modes@.contains(m),
{
    let mut i: usize = 0;
    while i < modes.len()
        invariant
            i <= modes@.len(),
            forall|j: int| 0 <= j < i ==> modes@[j] != m,
        decreases modes@.len() - i,
    {
        if modes[i] == m {
            return true;
        }
        i = i + 1;
    }
    false
}

impl GTFS {
    /// Keeps the rows of the operator whose mode is listed, in order.
    pub fn read_haltestellen(&self, rows: Vec<RawHaltestellen>, modes: Vec<TransportMode>) -> (r: Vec<RawHaltestellen>)
        ensures
            r@ == kept_rows(rows@, self.agency_id@, modes@),
    {
        let ghost all = rows@;
        let mut rest = rows;
        let mut reversed: Vec<RawHaltestellen> = Vec::new();
        while rest.len() > 0
            invariant
                all == rest@ + reversed@.reverse(),
            decreases rest@.len(),
        {
            let ghost before = reversed@;
            let h = rest.pop().unwrap();
            reversed.push(h);
            assert(reversed@.reverse() =~= seq![h] + before.reverse());
        }
        assert(all =~= reversed@.reverse());
        let mut out: Vec<RawHaltestellen> = Vec::new();
        while reversed.len() > 0
            invariant
                out@ == kept_rows(all.take(all.len() - reversed@.len()), self.agency_id@, modes@),
                reversed@.len() <= all.len(),
                forall|i: int| 0 <= i < reversed@.len() ==> reversed@[i] == all[all.len() - 1 - i],
            decreases reversed@.len(),
        {
            let ghost k = all.len() - reversed@.len();
            let h = reversed.pop().unwrap();
            proof {
                assert(h == all[k]);
                assert(all.take(k + 1).drop_last() =~= all.take(k));
            }
            if text_eq(h.tu_code.as_str(), self.agency_id.as_str()) && contains_mode(&modes, h.vm_art) {
                out.push(h);
            }
        }
        assert(all.take(all.len() as int) =~= all);
        out
    }
}

} // verus!
