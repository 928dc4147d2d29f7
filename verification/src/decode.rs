//! The record decoder: one comma-separated SBS-1 line in, one structured
//! telemetry record out, or a rejection.
//!
//! A line is accepted exactly when it has at least 22 comma-separated
//! fields and its first field is the literal telemetry tag `MSG`.  Numeric
//! fields are decoded independently: a field of an accepted line that does
//! not parse leaves that one attribute absent (or, for the transmission
//! type alone, defaults it to zero) and never rejects the record.
//!
//! Verus does not reason about floating-point values, so the four
//! floating-point attributes keep the canonical JSON rendering of the
//! parsed value as text; whether a field parses, and what it renders to,
//! is fixed by the uninterpreted function [`float_repr`].

use vstd::prelude::*;
use crate::numbers::{parse_uint_spec, unsigned_digits, lemma_dec_val_nonneg, parse_capped};
use crate::text::{split_comma, split_commas, str_eq};

verus! {

/// One decoded telemetry observation.
///
/// The textual correlation and timestamp fields are copied from the line
/// verbatim.  `altitude` is present exactly when its field parses as an
/// unsigned integer.  The four floating-point attributes are present
/// exactly when their field parses as a floating-point number, and hold
/// that number's canonical JSON rendering.
#[derive(Debug, PartialEq, Eq)]
pub struct AdsbMessage {
    pub message_type: String,
    pub transmission_type: u8,
    pub session_id: String,
    pub aircraft_id: String,
    pub hex_ident: String,
    pub flight_id: String,
    pub date_gen: String,
    pub time_gen: String,
    pub altitude: Option<u32>,
    pub latitude: Option<String>,
    pub longitude: Option<String>,
    pub ground_speed: Option<String>,
    pub track: Option<String>,
}

/// What a floating-point field renders to: the canonical JSON rendering
/// of the number the text parses as, or nothing when it does not parse.
/// Both depend on the characters of the text alone; see
/// [`parse_float_field`] for what fixes this function.
pub uninterp spec fn float_repr(s: Seq<char>) -> Option<Seq<char>>;

/// Relies on `serde_json::Number::from_str`, which accepts a text exactly
/// when the whole of it is a JSON number, and on the `Display` rendering
/// of `serde_json::Number`, which writes that number back canonically:
/// both are functions of the characters of the text alone, here named
/// [`float_repr`].
#[verifier::external_body]
fn parse_float_field(s: &str) -> (r: Option<String>)
    ensures
        r is Some <==> float_repr(s@) is Some,
        r matches Some(t) ==> float_repr(s@) == Some(t@),
{
    match s.parse::<serde_json::Number>() {
        Ok(n) => Some(n.to_string()),
        Err(_) => None,
    }
}

/// The tag marking a line as a telemetry observation.
pub open spec fn telemetry_tag() -> Seq<char> {
    "MSG"@
}

/// A line is accepted exactly when it has at least 22 fields and its
/// first field is the telemetry tag.
pub open spec fn line_accepted(l: Seq<char>) -> bool {
    &&& split_comma(l).len() >= 22
    &&& split_comma(l)[0] == telemetry_tag()
}

/// The transmission type encoded by a field: its value as an unsigned
/// 8-bit decimal, or zero when it does not parse.
pub open spec fn tt_of(f: Seq<char>) -> int {
    match parse_uint_spec(f, 255) {
        Some(v) => v as int,
        None => 0,
    }
}

/// A floating-point attribute holds exactly the rendering of its field.
pub open spec fn float_field_of(f: Seq<char>, o: Option<String>) -> bool {
    match o {
        Some(t) => float_repr(f) == Some(t@),
        None => float_repr(f) is None,
    }
}

/// The record `m` is the decoding of the accepted line `l`: every
/// attribute is fixed, independently, by its own field of the line.
pub open spec fn parsed_from(l: Seq<char>, m: AdsbMessage) -> bool {
    let fs = split_comma(l);
    &&& m.message_type@ == fs[0]
    &&& m.transmission_type as int == tt_of(fs[1])
    &&& m.session_id@ == fs[2]
    &&& m.aircraft_id@ == fs[3]
    &&& m.hex_ident@ == fs[4]
    &&& m.flight_id@ == fs[5]
    &&& m.date_gen@ == fs[6]
    &&& m.time_gen@ == fs[7]
    &&& m.altitude == parse_uint_spec(fs[11], u32::MAX as int)
    &&& float_field_of(fs[12], m.ground_speed)
    &&& float_field_of(fs[13], m.track)
    &&& float_field_of(fs[14], m.latitude)
    &&& float_field_of(fs[15], m.longitude)
}

/// Decode one line: a record exactly when the line is accepted, rejection
/// otherwise.  A malformed numeric field never rejects an accepted line.
pub fn parse_adsb_message(line: &str) -> (r: Option<AdsbMessage>)
    ensures
        r is Some <==> line_accepted(line@),
        r matches Some(m) ==> parsed_from(line@, m),
{
    let parts = split_commas(line);
    let ghost fs = split_comma(line@);
    proof {
        assert(parts@.map_values(|f: String| f@).len() == parts@.len());
        assert forall|k: int| 0 <= k < parts@.len() implies #[trigger] parts@[k]@ == fs[k] by {
            assert(parts@.map_values(|f: String| f@)[k] == parts@[k]@);
        }
    }
    if parts.len() < 22 {
        return None;
    }
    if !str_eq(parts[0].as_str(), "MSG") {
        return None;
    }
    let tt: u8 = match parse_capped(parts[1].as_str(), 255) {
        Some(v) => {
            proof {
                lemma_dec_val_nonneg(unsigned_digits(fs[1]));
            }
            v as u8
        },
        None => 0,
    };
    let m = AdsbMessage {
        message_type: parts[0].clone(),
        transmission_type: tt,
        session_id: parts[2].clone(),
        aircraft_id: parts[3].clone(),
        hex_ident: parts[4].clone(),
        flight_id: parts[5].clone(),
        date_gen: parts[6].clone(),
        time_gen: parts[7].clone(),
        altitude: parse_capped(parts[11].as_str(), u32::MAX),
        ground_speed: parse_float_field(parts[12].as_str()),
        track: parse_float_field(parts[13].as_str()),
        latitude: parse_float_field(parts[14].as_str()),
        longitude: parse_float_field(parts[15].as_str()),
    };
    Some(m)
}

/// An optional text attribute of one record matches that of another.
pub open spec fn opt_text_eqv(x: Option<String>, y: Option<String>) -> bool {
    match (x, y) {
        (Some(a), Some(b)) => a@ == b@,
        (None, None) => true,
        _ => false,
    }
}

/// Decoding is deterministic: two records decoded from the same line
/// agree, field for field.
pub proof fn lemma_decode_deterministic(l: Seq<char>, a: AdsbMessage, b: AdsbMessage)
    requires
        parsed_from(l, a),
        parsed_from(l, b),
    ensures
        a.message_type@ == b.message_type@,
        a.transmission_type == b.transmission_type,
        a.session_id@ == b.session_id@,
        a.aircraft_id@ == b.aircraft_id@,
        a.hex_ident@ == b.hex_ident@,
        a.flight_id@ == b.flight_id@,
        a.date_gen@ == b.date_gen@,
        a.time_gen@ == b.time_gen@,
        a.altitude == b.altitude,
        opt_text_eqv(a.ground_speed, b.ground_speed),
        opt_text_eqv(a.track, b.track),
        opt_text_eqv(a.latitude, b.latitude),
        opt_text_eqv(a.longitude, b.longitude),
{
}

} // verus!
