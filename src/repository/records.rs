//! The typed records of the timetable files, each decoded from one line by
//! its fixed column layout. A field that does not parse fails the record.
use crate::model::line::TransportMode;
use crate::model::types::{ColorType, Direction};
use crate::repository::columns::{
    column_text, decode_i16, decode_i32, field_i16, field_i32, field_text, line_clusters, DecodeError,
};
use crate::repository::columns::lemma_field_round_trip;
use crate::text::{decimal_text, grapheme_clusters};
use vstd::prelude::*;

verus! {

/// The error of a field whose token names no direction.
fn direction_error(text: String) -> (e: DecodeError)
    ensures
        e.text@ == text@,
{
    DecodeError { field: String::from_str("direction"), text }
}

/// Header of a journey: number, operating agency and option count.
pub struct RawFahrplanZ {
    pub journey_number: i32,
    pub agency_id: String,
    pub option_count: i16,
}

pub ghost struct RawFahrplanZView {
    pub journey_number: i32,
    pub agency_id: Seq<char>,
    pub option_count: i16,
}

impl View for RawFahrplanZ {
    type V = RawFahrplanZView;

    open spec fn view(&self) -> RawFahrplanZView {
        RawFahrplanZView { journey_number: self.journey_number, agency_id: self.agency_id@, option_count: self.option_count }
    }
}

impl RawFahrplanZ {
    /// The record that a line cut into `g` holds, if every field parses.
    pub open spec fn spec_decode(g: Seq<Seq<char>>) -> Option<RawFahrplanZView> {
        if field_i32(g, 3, 9) is Some && field_i16(g, 19, 22) is Some {
            Some(RawFahrplanZView { journey_number: field_i32(g, 3, 9)->0, agency_id: field_text(g, 10, 16), option_count: field_i16(g, 19, 22)->0 })
        } else {
            None
        }
    }

    /// Decodes one line; fails on the first field that does not parse.
    pub fn from_line(line: &str) -> (r: Result<Self, DecodeError>)
        ensures
            match r {
                Ok(rec) => Self::spec_decode(grapheme_clusters(line@)) == Some(rec@),
                Err(_) => Self::spec_decode(grapheme_clusters(line@)) is None,
            },
    {
        let g = line_clusters(line);
        let journey_number = match decode_i32(&g, 3, 9, "journey_number") {
            Ok(v) => v,
            Err(err) => return Err(err),
        };
        let agency_id = column_text(&g, 10, 16);
        let option_count = match decode_i16(&g, 19, 22, "option_count") {
            Ok(v) => v,
            Err(err) => return Err(err),
        };
        Ok(RawFahrplanZ { journey_number, agency_id, option_count })
    }
}

/// Transport mode block of a journey, with its origin and destination stops.
#[derive(Debug, Clone, Copy, PartialEq, Eq, Structural)]
pub struct RawFahrplanG {
    pub transport_mode: TransportMode,
    pub origin_id: i32,
    pub destination_id: i32,
}

impl View for RawFahrplanG {
    type V = RawFahrplanG;

    open spec fn view(&self) -> RawFahrplanG {
        *self
    }
}

impl RawFahrplanG {
    /// The record that a line cut into `g` holds, if every field parses.
    pub open spec fn spec_decode(g: Seq<Seq<char>>) -> Option<RawFahrplanG> {
        if field_i32(g, 7, 14) is Some && field_i32(g, 15, 22) is Some {
            Some(RawFahrplanG { transport_mode: TransportMode::of_token(field_text(g, 3, 6)), origin_id: field_i32(g, 7, 14)->0, destination_id: field_i32(g, 15, 22)->0 })
        } else {
            None
        }
    }

    /// Decodes one line; fails on the first field that does not parse.
    pub fn from_line(line: &str) -> (r: Result<Self, DecodeError>)
        ensures
            match r {
                Ok(rec) => Self::spec_decode(grapheme_clusters(line@)) == Some(rec@),
                Err(_) => Self::spec_decode(grapheme_clusters(line@)) is None,
            },
    {
        let g = line_clusters(line);
        let transport_mode_text = column_text(&g, 3, 6);
        let transport_mode = match TransportMode::from_str(transport_mode_text.as_str()) {
            Ok(v) => v,
            Err(_) => TransportMode::Unknown,
        };
        let origin_id = match decode_i32(&g, 7, 14, "origin_id") {
            Ok(v) => v,
            Err(err) => return Err(err),
        };
        let destination_id = match decode_i32(&g, 15, 22, "destination_id") {
            Ok(v) => v,
            Err(err) => return Err(err),
        };
        Ok(RawFahrplanG { transport_mode, origin_id, destination_id })
    }
}

/// Calendar reference block of a journey.
#[derive(Debug, Clone, Copy, PartialEq, Eq, Structural)]
pub struct RawFahrplanA {
    pub origin_id: i32,
    pub destination_id: i32,
    pub bit_field_number: i32,
}

impl View for RawFahrplanA {
    type V = RawFahrplanA;

    open spec fn view(&self) -> RawFahrplanA {
        *self
    }
}

impl RawFahrplanA {
    /// The record that a line cut into `g` holds, if every field parses.
    pub open spec fn spec_decode(g: Seq<Seq<char>>) -> Option<RawFahrplanA> {
        if field_i32(g, 6, 13) is Some && field_i32(g, 14, 21) is Some && field_i32(g, 22, 28) is Some {
            Some(RawFahrplanA { origin_id: field_i32(g, 6, 13)->0, destination_id: field_i32(g, 14, 21)->0, bit_field_number: field_i32(g, 22, 28)->0 })
        } else {
            None
        }
    }

    /// Decodes one line; fails on the first field that does not parse.
    pub fn from_line(line: &str) -> (r: Result<Self, DecodeError>)
        ensures
            match r {
                Ok(rec) => Self::spec_decode(grapheme_clusters(line@)) == Some(rec@),
                Err(_) => Self::spec_decode(grapheme_clusters(line@)) is None,
            },
    {
        let g = line_clusters(line);
        let origin_id = match decode_i32(&g, 6, 13, "origin_id") {
            Ok(v) => v,
            Err(err) => return Err(err),
        };
        let destination_id = match decode_i32(&g, 14, 21, "destination_id") {
            Ok(v) => v,
            Err(err) => return Err(err),
        };
        let bit_field_number = match decode_i32(&g, 22, 28, "bit_field_number") {
            Ok(v) => v,
            Err(err) => return Err(err),
        };
        Ok(RawFahrplanA { origin_id, destination_id, bit_field_number })
    }
}

/// Line reference block of a journey.
#[derive(Debug, Clone, Copy, PartialEq, Eq, Structural)]
pub struct RawFahrplanL {
    pub line_number: i32,
    pub origin_id: i32,
    pub destination_id: i32,
}

impl View for RawFahrplanL {
    type V = RawFahrplanL;

    open spec fn view(&self) -> RawFahrplanL {
        *self
    }
}

impl RawFahrplanL {
    /// The record that a line cut into `g` holds, if every field parses.
    pub open spec fn spec_decode(g: Seq<Seq<char>>) -> Option<RawFahrplanL> {
        if field_i32(g, 4, 11) is Some && field_i32(g, 12, 19) is Some && field_i32(g, 20, 27) is Some {
            Some(RawFahrplanL { line_number: field_i32(g, 4, 11)->0, origin_id: field_i32(g, 12, 19)->0, destination_id: field_i32(g, 20, 27)->0 })
        } else {
            None
        }
    }

    /// Decodes one line; fails on the first field that does not parse.
    pub fn from_line(line: &str) -> (r: Result<Self, DecodeError>)
        ensures
            match r {
                Ok(rec) => Self::spec_decode(grapheme_clusters(line@)) == Some(rec@),
                Err(_) => Self::spec_decode(grapheme_clusters(line@)) is None,
            },
    {
        let g = line_clusters(line);
        let line_number = match decode_i32(&g, 4, 11, "line_number") {
            Ok(v) => v,
            Err(err) => return Err(err),
        };
        let origin_id = match decode_i32(&g, 12, 19, "origin_id") {
            Ok(v) => v,
            Err(err) => return Err(err),
        };
        let destination_id = match decode_i32(&g, 20, 27, "destination_id") {
            Ok(v) => v,
            Err(err) => return Err(err),
        };
        Ok(RawFahrplanL { line_number, origin_id, destination_id })
    }
}

/// Direction block of a journey.
#[derive(Debug, Clone, Copy, PartialEq, Eq, Structural)]
pub struct RawFahrplanR {
    pub direction: Direction,
    pub direction_number: i32,
    pub origin_id: i32,
    pub destination_id: i32,
}

impl View for RawFahrplanR {
    type V = RawFahrplanR;

    open spec fn view(&self) -> RawFahrplanR {
        *self
    }
}

impl RawFahrplanR {
    /// The record that a line cut into `g` holds, if every field parses.
    pub open spec fn spec_decode(g: Seq<Seq<char>>) -> Option<RawFahrplanR> {
        if Direction::of_token(field_text(g, 3, 4)) is Some && field_i32(g, 6, 12) is Some && field_i32(g, 13, 20) is Some && field_i32(g, 21, 28) is Some {
            Some(RawFahrplanR { direction: Direction::of_token(field_text(g, 3, 4))->0, direction_number: field_i32(g, 6, 12)->0, origin_id: field_i32(g, 13, 20)->0, destination_id: field_i32(g, 21, 28)->0 })
        } else {
            None
        }
    }

    /// Decodes one line; fails on the first field that does not parse.
    pub fn from_line(line: &str) -> (r: Result<Self, DecodeError>)
        ensures
            match r {
                Ok(rec) => Self::spec_decode(grapheme_clusters(line@)) == Some(rec@),
                Err(_) => Self::spec_decode(grapheme_clusters(line@)) is None,
            },
    {
        let g = line_clusters(line);
        let direction_text = column_text(&g, 3, 4);
        let direction = match Direction::from_str(direction_text.as_str()) {
            Ok(v) => v,
            Err(_) => return Err(direction_error(direction_text)),
        };
        let direction_number = match decode_i32(&g, 6, 12, "direction_number") {
            Ok(v) => v,
            Err(err) => return Err(err),
        };
        let origin_id = match decode_i32(&g, 13, 20, "origin_id") {
            Ok(v) => v,
            Err(err) => return Err(err),
        };
        let destination_id = match decode_i32(&g, 21, 28, "destination_id") {
            Ok(v) => v,
            Err(err) => return Err(err),
        };
        Ok(RawFahrplanR { direction, direction_number, origin_id, destination_id })
    }
}

/// A stop-time line: stop, name, and raw arrival and departure texts.
pub struct RawFahrplanStop {
    pub id: i32,
    pub name: String,
    pub arrival_time: String,
    pub departure_time: String,
}

pub ghost struct RawFahrplanStopView {
    pub id: i32,
    pub name: Seq<char>,
    pub arrival_time: Seq<char>,
    pub departure_time: Seq<char>,
}

impl View for RawFahrplanStop {
    type V = RawFahrplanStopView;

    open spec fn view(&self) -> RawFahrplanStopView {
        RawFahrplanStopView { id: self.id, name: self.name@, arrival_time: self.arrival_time@, departure_time: self.departure_time@ }
    }
}

impl RawFahrplanStop {
    /// The record that a line cut into `g` holds, if every field parses.
    pub open spec fn spec_decode(g: Seq<Seq<char>>) -> Option<RawFahrplanStopView> {
        if field_i32(g, 0, 7) is Some {
            Some(RawFahrplanStopView { id: field_i32(g, 0, 7)->0, name: field_text(g, 8, 28), arrival_time: field_text(g, 30, 35), departure_time: field_text(g, 37, 42) })
        } else {
            None
        }
    }

    /// Decodes one line; fails on the first field that does not parse.
    pub fn from_line(line: &str) -> (r: Result<Self, DecodeError>)
        ensures
            match r {
                Ok(rec) => Self::spec_decode(grapheme_clusters(line@)) == Some(rec@),
                Err(_) => Self::spec_decode(grapheme_clusters(line@)) is None,
            },
    {
        let g = line_clusters(line);
        let id = match decode_i32(&g, 0, 7, "id") {
            Ok(v) => v,
            Err(err) => return Err(err),
        };
        let name = column_text(&g, 8, 28);
        let arrival_time = column_text(&g, 30, 35);
        let departure_time = column_text(&g, 37, 42);
        Ok(RawFahrplanStop { id, name, arrival_time, departure_time })
    }
}

/// Name record of the line catalogue.
pub struct RawLinieN {
    pub number: i32,
    pub name: String,
}

pub ghost struct RawLinieNView {
    pub number: i32,
    pub name: Seq<char>,
}

impl View for RawLinieN {
    type V = RawLinieNView;

    open spec fn view(&self) -> RawLinieNView {
        RawLinieNView { number: self.number, name: self.name@ }
    }
}

impl RawLinieN {
    /// The record that a line cut into `g` holds, if every field parses.
    pub open spec fn spec_decode(g: Seq<Seq<char>>) -> Option<RawLinieNView> {
        if field_i32(g, 0, 7) is Some {
            Some(RawLinieNView { number: field_i32(g, 0, 7)->0, name: field_text(g, 12, 22) })
        } else {
            None
        }
    }

    /// Decodes one line; fails on the first field that does not parse.
    pub fn from_line(line: &str) -> (r: Result<Self, DecodeError>)
        ensures
            match r {
                Ok(rec) => Self::spec_decode(grapheme_clusters(line@)) == Some(rec@),
                Err(_) => Self::spec_decode(grapheme_clusters(line@)) is None,
            },
    {
        let g = line_clusters(line);
        let number = match decode_i32(&g, 0, 7, "number") {
            Ok(v) => v,
            Err(err) => return Err(err),
        };
        let name = column_text(&g, 12, 22);
        Ok(RawLinieN { number, name })
    }
}

/// Colour-type record of the line catalogue.
#[derive(Debug, Clone, Copy, PartialEq, Eq, Structural)]
pub struct RawLinieF {
    pub number: i32,
    pub color_type: ColorType,
}

impl View for RawLinieF {
    type V = RawLinieF;

    open spec fn view(&self) -> RawLinieF {
        *self
    }
}

impl RawLinieF {
    /// The record that a line cut into `g` holds, if every field parses.
    pub open spec fn spec_decode(g: Seq<Seq<char>>) -> Option<RawLinieF> {
        if field_i32(g, 0, 7) is Some {
            Some(RawLinieF { number: field_i32(g, 0, 7)->0, color_type: ColorType::of_token(field_text(g, 10, 21)) })
        } else {
            None
        }
    }

    /// Decodes one line; fails on the first field that does not parse.
    pub fn from_line(line: &str) -> (r: Result<Self, DecodeError>)
        ensures
            match r {
                Ok(rec) => Self::spec_decode(grapheme_clusters(line@)) == Some(rec@),
                Err(_) => Self::spec_decode(grapheme_clusters(line@)) is None,
            },
    {
        let g = line_clusters(line);
        let number = match decode_i32(&g, 0, 7, "number") {
            Ok(v) => v,
            Err(err) => return Err(err),
        };
        let color_type_text = column_text(&g, 10, 21);
        let color_type = match ColorType::from_str(color_type_text.as_str()) {
            Ok(v) => v,
            Err(_) => ColorType::Unknown,
        };
        Ok(RawLinieF { number, color_type })
    }
}

/// Colour record of the line catalogue.
pub struct RawLinieB {
    pub number: i32,
    pub color: String,
}

pub ghost struct RawLinieBView {
    pub number: i32,
    pub color: Seq<char>,
}

impl View for RawLinieB {
    type V = RawLinieBView;

    open spec fn view(&self) -> RawLinieBView {
        RawLinieBView { number: self.number, color: self.color@ }
    }
}

impl RawLinieB {
    /// The record that a line cut into `g` holds, if every field parses.
    pub open spec fn spec_decode(g: Seq<Seq<char>>) -> Option<RawLinieBView> {
        if field_i32(g, 0, 7) is Some {
            Some(RawLinieBView { number: field_i32(g, 0, 7)->0, color: field_text(g, 10, 21) })
        } else {
            None
        }
    }

    /// Decodes one line; fails on the first field that does not parse.
    pub fn from_line(line: &str) -> (r: Result<Self, DecodeError>)
        ensures
            match r {
                Ok(rec) => Self::spec_decode(grapheme_clusters(line@)) == Some(rec@),
                Err(_) => Self::spec_decode(grapheme_clusters(line@)) is None,
            },
    {
        let g = line_clusters(line);
        let number = match decode_i32(&g, 0, 7, "number") {
            Ok(v) => v,
            Err(err) => return Err(err),
        };
        let color = column_text(&g, 10, 21);
        Ok(RawLinieB { number, color })
    }
}

/// Calendar mask record: an id and its hexadecimal day mask.
pub struct RawBitfeld {
    pub number: i32,
    pub days: String,
}

pub ghost struct RawBitfeldView {
    pub number: i32,
    pub days: Seq<char>,
}

impl View for RawBitfeld {
    type V = RawBitfeldView;

    open spec fn view(&self) -> RawBitfeldView {
        RawBitfeldView { number: self.number, days: self.days@ }
    }
}

impl RawBitfeld {
    /// The record that a line cut into `g` holds, if every field parses.
    pub open spec fn spec_decode(g: Seq<Seq<char>>) -> Option<RawBitfeldView> {
        if field_i32(g, 0, 6) is Some {
            Some(RawBitfeldView { number: field_i32(g, 0, 6)->0, days: field_text(g, 7, 99) })
        } else {
            None
        }
    }

    /// Decodes one line; fails on the first field that does not parse.
    pub fn from_line(line: &str) -> (r: Result<Self, DecodeError>)
        ensures
            match r {
                Ok(rec) => Self::spec_decode(grapheme_clusters(line@)) == Some(rec@),
                Err(_) => Self::spec_decode(grapheme_clusters(line@)) is None,
            },
    {
        let g = line_clusters(line);
        let number = match decode_i32(&g, 0, 6, "number") {
            Ok(v) => v,
            Err(err) => return Err(err),
        };
        let days = column_text(&g, 7, 99);
        Ok(RawBitfeld { number, days })
    }
}

/// Stop coordinate record; the coordinates stay as their decimal texts.
pub struct RawStop {
    pub id: i32,
    pub lon: String,
    pub lat: String,
    pub name: String,
}

pub ghost struct RawStopView {
    pub id: i32,
    pub lon: Seq<char>,
    pub lat: Seq<char>,
    pub name: Seq<char>,
}

impl View for RawStop {
    type V = RawStopView;

    open spec fn view(&self) -> RawStopView {
        RawStopView { id: self.id, lon: self.lon@, lat: self.lat@, name: self.name@ }
    }
}

impl RawStop {
    /// The record that a line cut into `g` holds, if every field parses.
    pub open spec fn spec_decode(g: Seq<Seq<char>>) -> Option<RawStopView> {
        if field_i32(g, 0, 7) is Some {
            Some(RawStopView { id: field_i32(g, 0, 7)->0, lon: field_text(g, 10, 18), lat: field_text(g, 20, 29), name: field_text(g, 39, 90) })
        } else {
            None
        }
    }

    /// Decodes one line; fails on the first field that does not parse.
    pub fn from_line(line: &str) -> (r: Result<Self, DecodeError>)
        ensures
            match r {
                Ok(rec) => Self::spec_decode(grapheme_clusters(line@)) == Some(rec@),
                Err(_) => Self::spec_decode(grapheme_clusters(line@)) is None,
            },
    {
        let g = line_clusters(line);
        let id = match decode_i32(&g, 0, 7, "id") {
            Ok(v) => v,
            Err(err) => return Err(err),
        };
        let lon = column_text(&g, 10, 18);
        let lat = column_text(&g, 20, 29);
        let name = column_text(&g, 39, 90);
        Ok(RawStop { id, lon, lat, name })
    }
}

/// A decoded stop-time record gives back the trimmed texts of its columns:
/// name and times as they stand, and the stop id, written in decimal, as
/// its column held it whenever that was in shortest form.
pub proof fn lemma_stop_record_round_trip(line: Seq<char>, w: i32)
    requires
        RawFahrplanStop::spec_decode(grapheme_clusters(line)) is Some,
        field_text(grapheme_clusters(line), 0, 7) == decimal_text(w as int),
    ensures
        ({
            let g = grapheme_clusters(line);
            let rec = RawFahrplanStop::spec_decode(g)->0;
            &&& rec.id == w
            &&& decimal_text(rec.id as int) == field_text(g, 0, 7)
            &&& rec.name == field_text(g, 8, 28)
            &&& rec.arrival_time == field_text(g, 30, 35)
            &&& rec.departure_time == field_text(g, 37, 42)
        }),
{
    lemma_field_round_trip(grapheme_clusters(line), 0, 7, w);
}

} // verus!
