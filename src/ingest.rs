use vstd::prelude::*;

use crate::packet::{decode, decode_slice, LocationInfo, PACKET_SIZE};

verus! {

/// The location kind of a player position; other kinds are not recognised.
pub const PLAYER_LOCATION: u32 = 0;

/// Whether `seconds` and `nanos` name a point in UTC time. The nanoseconds may
/// reach past one second only on the last second of a minute, to hold a leap
/// second.
pub open spec fn valid_timestamp(seconds: u32, nanos: u32) -> bool {
    nanos < 1_000_000_000 || (nanos < 2_000_000_000 && seconds % 60 == 59)
}

/// Relies on chrono's `DateTime::from_timestamp`: a seconds count that fits in
/// `u32` always names a day within chrono's range, and the time of day is
/// refused when the nanoseconds reach two seconds, or reach one second outside
/// the last second of a minute (a day has a whole number of minutes, so that
/// second is the last of the minute in the count too).
#[verifier::external_body]
fn utc_timestamp_accepted(seconds: u32, nanos: u32) -> (r: bool)
    ensures
        r == valid_timestamp(seconds, nanos),
{
    chrono::DateTime::from_timestamp(seconds as i64, nanos).is_some()
}

/// What the ingest loop does with one received datagram.
#[derive(Debug, Clone, Copy, PartialEq, Eq, Structural)]
pub enum Datagram {
    /// Not a packet: its length is not 40 bytes. Discarded with a warning.
    Malformed { len: usize },
    /// A packet whose timestamp names no point in time. Fatal to the loop.
    InvalidTimestamp(LocationInfo),
    /// A packet of a location kind other than the player's. Discarded with a
    /// warning.
    Unrecognized { loc_type: u32 },
    /// A player location, to be transformed, stored and logged.
    Location(LocationInfo),
}

/// What a datagram with bytes `b` is.
pub open spec fn classify(b: Seq<u8>) -> Datagram {
    if b.len() != PACKET_SIZE {
        Datagram::Malformed { len: b.len() as usize }
    } else {
        let p = decode(b);
        if !valid_timestamp(p.seconds, p.nanos) {
            Datagram::InvalidTimestamp(p)
        } else if p.loc_type != PLAYER_LOCATION {
            Datagram::Unrecognized { loc_type: p.loc_type }
        } else {
            Datagram::Location(p)
        }
    }
}

/// Checks the length of a received datagram, decodes it, checks its timestamp
/// and its location kind, in that order. A datagram of any length other than
/// 40 is never decoded.
pub fn classify_datagram(datagram: &[u8]) -> (r: Datagram)
    ensures
        r == classify(datagram@),
{
    if datagram.len() != PACKET_SIZE {
        return Datagram::Malformed { len: datagram.len() };
    }
    let p = decode_slice(datagram);
    if !utc_timestamp_accepted(p.seconds, p.nanos) {
        Datagram::InvalidTimestamp(p)
    } else if p.loc_type != PLAYER_LOCATION {
        Datagram::Unrecognized { loc_type: p.loc_type }
    } else {
        Datagram::Location(p)
    }
}

} // verus!
