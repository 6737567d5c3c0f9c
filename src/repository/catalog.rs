//! The side files of the timetable: calendar masks, the line catalogue and
//! stop coordinates, each kept to what the journeys need.
use crate::model::bitfield::{check_hex_mask, hex_bits, is_hex_mask, Bitfield, BitfieldView};
use crate::model::line::{Line, LineView};
use crate::model::types::ColorType;
use crate::repository::hrdf::{contains_id, lines_view, HRDF};
use crate::repository::records::{
    RawBitfeld, RawLinieB, RawLinieF, RawLinieN, RawLinieNView, RawStop, RawStopView,
};
use crate::text::grapheme_clusters;
use vstd::prelude::*;

verus! {

/// The calendars of a mask file whose ids are listed, in file order; a line
/// that does not decode, or whose mask is not hexadecimal, is skipped.
pub open spec fn selected_bitfields(lines: Seq<Seq<char>>, ids: Seq<i32>) -> Seq<BitfieldView>
    decreases lines.len(),
{
    if lines.len() == 0 {
        Seq::empty()
    } else {
        let p = selected_bitfields(lines.drop_last(), ids);
        match RawBitfeld::spec_decode(grapheme_clusters(lines.last())) {
            Some(b) => if ids.contains(b.number) && is_hex_mask(b.days) {
                p.push(BitfieldView { id: b.number, days: hex_bits(b.days) })
            } else {
                p
            },
            None => p,
        }
    }
}

/// The coordinate records of a file whose stop ids are listed, in file
/// order; a line that does not decode is skipped.
pub open spec fn selected_stops(lines: Seq<Seq<char>>, ids: Seq<i32>) -> Seq<RawStopView>
    decreases lines.len(),
{
    if lines.len() == 0 {
        Seq::empty()
    } else {
        let p = selected_stops(lines.drop_last(), ids);
        match RawStop::spec_decode(grapheme_clusters(lines.last())) {
            Some(s) => if ids.contains(s.id) {
                p.push(s)
            } else {
                p
            },
            None => p,
        }
    }
}

/// The kind of a catalogue line: the character in its ninth column.
pub open spec fn field_code(line: Seq<char>) -> Option<char> {
    if line.len() > 8 {
        Some(line[8])
    } else {
        None
    }
}

/// A line of the catalogue being read: its name record and the colour
/// records that follow it.
pub ghost struct LineAccView {
    pub n: RawLinieNView,
    pub color_type: Option<ColorType>,
    pub color: Option<Seq<char>>,
}

/// What a catalogue line does to the line being read: a colour-type or
/// colour record that decodes replaces the one before; any other kind of
/// record ends the line (`None`).
pub open spec fn absorb_line(acc: LineAccView, line: Seq<char>) -> Option<LineAccView> {
    let g = grapheme_clusters(line);
    if field_code(line) == Some('F') {
        Some(
            match RawLinieF::spec_decode(g) {
                Some(f) => LineAccView { color_type: Some(f.color_type), ..acc },
                None => acc,
            },
        )
    } else if field_code(line) == Some('B') {
        Some(
            match RawLinieB::spec_decode(g) {
                Some(b) => LineAccView { color: Some(b.color), ..acc },
                None => acc,
            },
        )
    } else {
        None
    }
}

/// The line a catalogue line opens: a name record that decodes.
pub open spec fn start_line(line: Seq<char>) -> Option<LineAccView> {
    if field_code(line) == Some('N') {
        match RawLinieN::spec_decode(grapheme_clusters(line)) {
            Some(n) => Some(LineAccView { n, color_type: None, color: None }),
            None => None,
        }
    } else {
        None
    }
}

/// The line that was read; missing colour records give `Unknown` and an
/// empty colour.
pub open spec fn finish_line(acc: LineAccView) -> LineView {
    LineView {
        id: acc.n.number,
        name: acc.n.name,
        color_type: match acc.color_type {
            Some(c) => c,
            None => ColorType::Unknown,
        },
        color: match acc.color {
            Some(c) => c,
            None => Seq::empty(),
        },
    }
}

pub ghost struct CatalogView {
    pub done: Seq<LineView>,
    pub open: Option<LineAccView>,
}

/// One catalogue line; a line that ends the current one is read again as a
/// possible name record.
pub open spec fn catalog_step(st: CatalogView, line: Seq<char>) -> CatalogView {
    match st.open {
        Some(acc) => match absorb_line(acc, line) {
            Some(next) => CatalogView { done: st.done, open: Some(next) },
            None => CatalogView { done: st.done.push(finish_line(acc)), open: start_line(line) },
        },
        None => CatalogView { done: st.done, open: start_line(line) },
    }
}

pub open spec fn catalog_prefix(lines: Seq<Seq<char>>) -> CatalogView
    decreases lines.len(),
{
    if lines.len() == 0 {
        CatalogView { done: Seq::empty(), open: None }
    } else {
        catalog_step(catalog_prefix(lines.drop_last()), lines.last())
    }
}

/// The lines of the catalogue, in file order.
pub open spec fn catalog(lines: Seq<Seq<char>>) -> Seq<LineView> {
    let st = catalog_prefix(lines);
    match st.open {
        Some(acc) => st.done.push(finish_line(acc)),
        None => st.done,
    }
}

pub open spec fn bitfields_view(v: Seq<Bitfield>) -> Seq<BitfieldView> {
    v.map_values(|b: Bitfield| b@)
}

pub open spec fn stops_view(v: Seq<RawStop>) -> Seq<RawStopView> {
    v.map_values(|s: RawStop| s@)
}

pub open spec fn catalog_view(v: Seq<Line>) -> Seq<LineView> {
    v.map_values(|l: Line| l@)
}

struct LineAcc {
    n: RawLinieN,
    color_type: Option<ColorType>,
    color: Option<String>,
}

impl LineAcc {
    spec fn view(&self) -> LineAccView {
        LineAccView {
            n: self.n@,
            color_type: self.color_type,
            color: match self.color {
                Some(c) => Some(c@),
                None => None,
            },
        }
    }
}

fn line_code(line: &str) -> (r: Option<char>)
    ensures
        r == field_code(line@),
{
    if line.unicode_len() > 8 {
        Some(line.get_char(8))
    } else {
        None
    }
}

fn start_line_of(line: &str) -> (r: Option<LineAcc>)
    ensures
        match r {
            Some(acc) => start_line(line@) == Some(acc.view()),
            None => start_line(line@) is None,
        },
{
    if line_code(line) != Some('N') {
        return None;
    }
    match RawLinieN::from_line(line) {
        Ok(n) => Some(LineAcc { n, color_type: None, color: None }),
        Err(_) => None,
    }
}

/// Takes one catalogue line in; `false` when it ends the line being read.
fn absorb_line_of(acc: &mut LineAcc, line: &str) -> (taken: bool)
    ensures
        taken == (absorb_line(old(acc).view(), line@) is Some),
        taken ==> final(acc).view() == absorb_line(old(acc).view(), line@)->0,
        !taken ==> final(acc).view() == old(acc).view(),
{
    let code = line_code(line);
    if code == Some('F') {
        match RawLinieF::from_line(line) {
            Ok(f) => {
                acc.color_type = Some(f.color_type);
            },
            Err(_) => {},
        }
        true
    } else if code == Some('B') {
        match RawLinieB::from_line(line) {
            Ok(b) => {
                acc.color = Some(b.color);
            },
            Err(_) => {},
        }
        true
    } else {
        false
    }
}

fn finish_line_of(acc: LineAcc) -> (r: Line)
    ensures
        r@ == finish_line(acc.view()),
{
    let color_type = match acc.color_type {
        Some(c) => c,
        None => ColorType::Unknown,
    };
    let color = match acc.color {
        Some(c) => c,
        None => String::new(),
    };
    Line { id: acc.n.number, name: acc.n.name, color_type, color }
}

impl HRDF {
    /// The calendars of the mask file that `ids` lists, their masks expanded
    /// to day strings.
    pub fn retrieve_bitfields(&self, lines: &Vec<String>, ids: &Vec<i32>) -> (r: Vec<Bitfield>)
        ensures
            bitfields_view(r@) == selected_bitfields(lines_view(lines@), ids@),
    {
        let ghost lv = lines_view(lines@);
        let mut out: Vec<Bitfield> = Vec::new();
        let mut i: usize = 0;
        while i < lines.len()
            invariant
                i <= lines@.len(),
                lv == lines_view(lines@),
                bitfields_view(out@) == selected_bitfields(lv.take(i as int), ids@),
            decreases lines@.len() - i,
        {
            proof {
                assert(lv.take(i + 1).drop_last() =~= lv.take(i as int));
                assert(lv.take(i + 1).last() == lines@[i as int]@);
            }
            let ghost before = out@;
            match RawBitfeld::from_line(lines[i].as_str()) {
                Ok(b) => {
                    if contains_id(ids, b.number) && check_hex_mask(b.days.as_str()) {
                        let days = Bitfield::convert_hex_to_bits(b.days.as_str());
                        out.push(Bitfield { id: b.number, days });
                        assert(bitfields_view(out@) =~= bitfields_view(before).push(out@.last()@));
                    }
                },
                Err(_) => {},
            }
            i = i + 1;
        }
        assert(lv.take(i as int) =~= lv);
        out
    }

    /// The coordinate records of the stops that `ids` lists, in file order.
    pub fn retrieve_stops(&self, lines: &Vec<String>, ids: &Vec<i32>) -> (r: Vec<RawStop>)
        ensures
            stops_view(r@) == selected_stops(lines_view(lines@), ids@),
    {
        let ghost lv = lines_view(lines@);
        let mut out: Vec<RawStop> = Vec::new();
        let mut i: usize = 0;
        while i < lines.len()
            invariant
                i <= lines@.len(),
                lv == lines_view(lines@),
                stops_view(out@) == selected_stops(lv.take(i as int), ids@),
            decreases lines@.len() - i,
        {
            proof {
                assert(lv.take(i + 1).drop_last() =~= lv.take(i as int));
                assert(lv.take(i + 1).last() == lines@[i as int]@);
            }
            let ghost before = out@;
            match RawStop::from_line(lines[i].as_str()) {
                Ok(s) => {
                    if contains_id(ids, s.id) {
                        out.push(s);
                        assert(stops_view(out@) =~= stops_view(before).push(out@.last()@));
                    }
                },
                Err(_) => {},
            }
            i = i + 1;
        }
        assert(lv.take(i as int) =~= lv);
        out
    }

    /// The lines of the catalogue, each a name record merged with the
    /// colour-type and colour records that follow it.
    pub fn get_lines(&self, lines: &Vec<String>) -> (r: Vec<Line>)
        ensures
            catalog_view(r@) == catalog(lines_view(lines@)),
    {
        let ghost lv = lines_view(lines@);
        let mut done: Vec<Line> = Vec::new();
        let mut open: Option<LineAcc> = None;
        let mut i: usize = 0;
        while i < lines.len()
            invariant
                i <= lines@.len(),
                lv == lines_view(lines@),
                ({
                    let st = catalog_prefix(lv.take(i as int));
                    &&& catalog_view(done@) == st.done
                    &&& match open {
                        Some(acc) => st.open == Some(acc.view()),
                        None => st.open is None,
                    }
                }),
            decreases lines@.len() - i,
        {
            let line = lines[i].as_str();
            proof {
                assert(lv.take(i + 1).drop_last() =~= lv.take(i as int));
                assert(lv.take(i + 1).last() == line@);
            }
            let ghost before = done@;
            open = match open {
                Some(mut acc) => {
                    if absorb_line_of(&mut acc, line) {
                        Some(acc)
                    } else {
                        done.push(finish_line_of(acc));
                        assert(catalog_view(done@) =~= catalog_view(before).push(done@.last()@));
                        start_line_of(line)
                    }
                },
                None => start_line_of(line),
            };
            i = i + 1;
        }
        assert(lv.take(i as int) =~= lv);
        match open {
            Some(acc) => {
                let ghost before = done@;
                done.push(finish_line_of(acc));
                assert(catalog_view(done@) =~= catalog_view(before).push(done@.last()@));
            },
            None => {},
        }
        done
    }
}

} // verus!
