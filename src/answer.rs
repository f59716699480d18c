//! Reading the caller's address out of a DNS answer.
use vstd::prelude::*;

use crate::addr::{IpAddr, Ipv4Addr, Ipv6Addr};
use crate::error::Error;

verus! {

/// How an address is asked of a provider and read from its answer.
#[derive(Debug, Clone, Copy, PartialEq, Eq, Hash)]
pub enum QueryMethod {
    /// The first `A` record is the address.
    A,
    /// The first `AAAA` record is the address.
    AAAA,
    /// The first string of the first `TXT` record holds the address as text.
    TXT,
}

/// The payload of one answer record.
#[derive(Debug, Clone)]
pub enum RecordData {
    /// A 4-byte IPv4 address.
    A([u8; 4]),
    /// A 16-byte IPv6 address.
    AAAA([u8; 16]),
    /// The opaque byte strings of a `TXT` record.
    TXT(Vec<Vec<u8>>),
    /// A record of any other type.
    Other,
}

/// What UTF-8 decoding makes of `b`: the characters, or `None` where `b` is
/// not valid UTF-8.
pub uninterp spec fn utf8_text(b: Seq<u8>) -> Option<Seq<char>>;

/// The IPv4 address that the text `s` writes in dotted-quad
/// form, or `None` where it is no such literal.
pub uninterp spec fn ipv4_text(s: Seq<char>) -> Option<[u8; 4]>;

/// The IPv6 address that the text `s` writes, or `None` where
/// it is no IPv6 literal.
pub uninterp spec fn ipv6_text(s: Seq<char>) -> Option<[u8; 16]>;

/// Relies on `core::str::from_utf8`: `Some` with the decoded text exactly when
/// the bytes are valid UTF-8.
#[verifier::external_body]
fn decode_utf8(b: &[u8]) -> (r: Option<&str>)
    ensures
        utf8_text(b@) == match r {
            Some(s) => Some(s@),
            None => None::<Seq<char>>,
        },
{
    core::str::from_utf8(b).ok()
}

/// Relies on `FromStr` of hickory's `rdata::A`, which is std's IPv4 literal
/// parser: the address that the text writes, if it writes one.
#[verifier::external_body]
fn parse_v4_text(s: &str) -> (r: Option<Ipv4Addr>)
    ensures
        ipv4_text(s@) == match r {
            Some(a) => Some(a.octets),
            None => None,
        },
{
    s.parse::<hickory_client::proto::rr::rdata::A>().ok().map(|a| Ipv4Addr { octets: a.0.octets() })
}

/// Relies on `FromStr` of hickory's `rdata::AAAA`, which is std's IPv6
/// literal parser: the address that the text writes, if it writes one.
#[verifier::external_body]
fn parse_v6_text(s: &str) -> (r: Option<Ipv6Addr>)
    ensures
        ipv6_text(s@) == match r {
            Some(a) => Some(a.octets),
            None => None,
        },
{
    s.parse::<hickory_client::proto::rr::rdata::AAAA>().ok().map(|a| Ipv6Addr { octets: a.0.octets() })
}

/// The address that the text `s` writes, IPv4 or IPv6, if any.
pub open spec fn text_addr(s: Seq<char>) -> Option<IpAddr> {
    match ipv4_text(s) {
        Some(o) => Some(IpAddr::V4(Ipv4Addr { octets: o })),
        None => match ipv6_text(s) {
            Some(o) => Some(IpAddr::V6(Ipv6Addr { octets: o })),
            None => None,
        },
    }
}

/// The address that the answer records `answers` give to a query by
/// `method`: only the first record counts, and it must be of the method's
/// own type.
pub open spec fn answer_addr(answers: Seq<RecordData>, method: QueryMethod) -> Option<IpAddr> {
    if answers.len() == 0 {
        None
    } else {
        match (answers[0], method) {
            (RecordData::A(o), QueryMethod::A) => Some(IpAddr::V4(Ipv4Addr { octets: o })),
            (RecordData::AAAA(o), QueryMethod::AAAA) => Some(IpAddr::V6(Ipv6Addr { octets: o })),
            (RecordData::TXT(chunks), QueryMethod::TXT) => if chunks@.len() == 0 {
                None
            } else {
                match utf8_text(chunks@[0]@) {
                    Some(t) => text_addr(t),
                    None => None,
                }
            },
            _ => None,
        }
    }
}

/// The result of reading `answers` by `method`: the address, or `Addr`.
pub open spec fn parsed(answers: Seq<RecordData>, method: QueryMethod) -> Result<IpAddr, Error> {
    match answer_addr(answers, method) {
        Some(a) => Ok(a),
        None => Err(Error::Addr),
    }
}

/// Reads the address out of the text of a `TXT` string.
pub fn parse_text(s: &str) -> (r: Option<IpAddr>)
    ensures
        r == text_addr(s@),
{
    match parse_v4_text(s) {
        Some(a) => Some(IpAddr::V4(a)),
        None => match parse_v6_text(s) {
            Some(a) => Some(IpAddr::V6(a)),
            None => None,
        },
    }
}

/// Reads the caller's address out of the answer records of a response to a
/// query by `method`. Records after the first are ignored.
pub fn parse_answer(answers: &Vec<RecordData>, method: QueryMethod) -> (r: Result<IpAddr, Error>)
    ensures
        r == parsed(answers@, method),
{
    if answers.len() == 0 {
        return Err(Error::Addr);
    }
    match (&answers[0], method) {
        (RecordData::A(o), QueryMethod::A) => Ok(IpAddr::V4(Ipv4Addr { octets: *o })),
        (RecordData::AAAA(o), QueryMethod::AAAA) => Ok(IpAddr::V6(Ipv6Addr { octets: *o })),
        (RecordData::TXT(chunks), QueryMethod::TXT) => {
            if chunks.len() == 0 {
                return Err(Error::Addr);
            }
            match decode_utf8(chunks[0].as_slice()) {
                Some(text) => match parse_text(text) {
                    Some(a) => Ok(a),
                    None => Err(Error::Addr),
                },
                None => Err(Error::Addr),
            }
        },
        _ => Err(Error::Addr),
    }
}

} // verus!
