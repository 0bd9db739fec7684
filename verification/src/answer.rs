//! The datagram with which a device answers a discovery request.
//!
//! An answer is a block of text lines. The first line must begin with the
//! status `HTTP/1.1 200 OK`; among the lines after it, the first that begins
//! with `LOCATION: ` names the device's description document.

use vstd::prelude::*;
use vstd::string::*;

verus! {

/// The byte that ends a line.
pub const LINE_FEED: u8 = 10;

/// The byte that may stand before a line feed and then belongs to the line ending.
pub const CARRIAGE_RETURN: u8 = 13;

/// Why a datagram is not an answer to a discovery request.
#[derive(Debug, Clone, Copy, PartialEq, Eq, Structural)]
pub enum AnswerError {
    /// There is no first line, or it does not begin with the expected status.
    BadStatus,
    /// The status is as expected, but no later line names a location.
    NoLocation,
}

/// What the first line of an answer must begin with.
pub open spec fn status_line() -> Seq<u8> {
    "HTTP/1.1 200 OK".spec_bytes()
}

/// What the line that names the location begins with.
pub open spec fn location_header() -> Seq<u8> {
    "LOCATION: ".spec_bytes()
}

/// A line without the carriage return that belonged to its ending.
pub open spec fn without_carriage_return(line: Seq<u8>) -> Seq<u8> {
    if line.len() > 0 && line.last() == CARRIAGE_RETURN {
        line.drop_last()
    } else {
        line
    }
}

/// The lines of a text. A line ends with a line feed, or with a carriage
/// return and a line feed; neither belongs to the line. Text after the last
/// line feed is a line of its own, kept as it is; no text there, no line.
pub open spec fn lines(text: Seq<u8>) -> Seq<Seq<u8>>
    decreases text.len(),
{
    if text.len() == 0 {
        Seq::empty()
    } else {
        match text.index_of_first(LINE_FEED) {
            None => seq![text],
            Some(at) => {
                proof {
                    text.index_of_first_ensures(LINE_FEED);
                }
                seq![without_carriage_return(text.take(at))] + lines(text.skip(at + 1))
            },
        }
    }
}

/// The location that the first line with the location header names, if any.
pub open spec fn location_among(lines: Seq<Seq<u8>>) -> Option<Seq<u8>>
    decreases lines.len(),
{
    if lines.len() == 0 {
        None
    } else if location_header().is_prefix_of(lines[0]) {
        Some(lines[0].skip(location_header().len() as int))
    } else {
        location_among(lines.drop_first())
    }
}

/// The location that a datagram announces, or why it announces none.
pub open spec fn answer_location(packet: Seq<u8>) -> Result<Seq<u8>, AnswerError> {
    let all = lines(packet);
    if all.len() == 0 || !status_line().is_prefix_of(all[0]) {
        Err(AnswerError::BadStatus)
    } else {
        match location_among(all.drop_first()) {
            Some(location) => Ok(location),
            None => Err(AnswerError::NoLocation),
        }
    }
}

/// Where the line feed stands that a scan from the start of `text` met first.
proof fn lemma_first_line_feed(text: Seq<u8>, at: int)
    requires
        0 <= at <= text.len(),
        forall|k: int| 0 <= k < at ==> text[k] != LINE_FEED,
        at < text.len() ==> text[at] == LINE_FEED,
    ensures
        at < text.len() ==> text.index_of_first(LINE_FEED) == Some(at),
        at == text.len() ==> text.index_of_first(LINE_FEED) is None,
{
    text.index_of_first_ensures(LINE_FEED);
}

/// The line that starts at `start`: where its content ends and where the next
/// line starts.
fn line_bounds(packet: &[u8], start: usize) -> (bounds: (usize, usize))
    requires
        start < packet.len(),
    ensures
        start <= bounds.0 <= bounds.1 <= packet.len(),
        start < bounds.1,
        lines(packet@.skip(start as int)).len() > 0,
        lines(packet@.skip(start as int))[0] == packet@.subrange(start as int, bounds.0 as int),
        lines(packet@.skip(start as int)).drop_first() == lines(packet@.skip(bounds.1 as int)),
{
    let ghost rest = packet@.skip(start as int);
    let mut at: usize = start;
    while at < packet.len() && packet[at] != LINE_FEED
        invariant
            start <= at <= packet.len(),
            forall|k: int| start <= k < at ==> packet@[k] != LINE_FEED,
        decreases packet.len() - at,
    {
        at += 1;
    }
    proof {
        lemma_first_line_feed(rest, at - start);
    }
    if at < packet.len() {
        let end: usize = if at > start && packet[at - 1] == CARRIAGE_RETURN {
            at - 1
        } else {
            at
        };
        assert(rest.skip(at - start + 1) =~= packet@.skip(at + 1));
        (end, at + 1)
    } else {
        (at, at)
    }
}

/// Whether the bytes from `start` up to `end` begin with `prefix`.
fn begins_with(packet: &[u8], start: usize, end: usize, prefix: &[u8]) -> (found: bool)
    requires
        start <= end <= packet.len(),
    ensures
        found == prefix@.is_prefix_of(packet@.subrange(start as int, end as int)),
{
    let ghost line = packet@.subrange(start as int, end as int);
    if prefix.len() > end - start {
        return false;
    }
    let mut k: usize = 0;
    while k < prefix.len()
        invariant
            start <= end <= packet.len(),
            prefix.len() <= end - start,
            k <= prefix.len(),
            line == packet@.subrange(start as int, end as int),
            forall|j: int| 0 <= j < k ==> prefix@[j] == line[j],
        decreases prefix.len() - k,
    {
        if packet[start + k] != prefix[k] {
            return false;
        }
        k += 1;
    }
    true
}

/// Finds the location that a datagram announces: the range of its bytes in
/// the datagram.
pub fn locate(packet: &[u8]) -> (found: Result<(usize, usize), AnswerError>)
    ensures
        match found {
            Ok((from, to)) => from <= to <= packet.len() && answer_location(packet@) == Ok::<
                Seq<u8>,
                AnswerError,
            >(packet@.subrange(from as int, to as int)),
            Err(error) => answer_location(packet@) == Err::<Seq<u8>, AnswerError>(error),
        },
{
    if packet.len() == 0 {
        return Err(AnswerError::BadStatus);
    }
    let status = "HTTP/1.1 200 OK".as_bytes();
    let header = "LOCATION: ".as_bytes();
    assert(packet@.skip(0) =~= packet@);
    let (first_end, second) = line_bounds(packet, 0);
    if !begins_with(packet, 0, first_end, status) {
        return Err(AnswerError::BadStatus);
    }
    let mut start: usize = second;
    while start < packet.len()
        invariant
            start <= packet.len(),
            header@ == location_header(),
            lines(packet@).len() > 0,
            status_line().is_prefix_of(lines(packet@)[0]),
            location_among(lines(packet@).drop_first()) == location_among(
                lines(packet@.skip(start as int)),
            ),
        decreases packet.len() - start,
    {
        let (end, next) = line_bounds(packet, start);
        if begins_with(packet, start, end, header) {
            assert(packet@.subrange(start as int, end as int).skip(header@.len() as int)
                =~= packet@.subrange(start + header@.len(), end as int));
            return Ok((start + header.len(), end));
        }
        start = next;
    }
    Err(AnswerError::NoLocation)
}

/// The text that bytes stand for when each malformed UTF-8 sequence among
/// them is read as the replacement character U+FFFD.
pub uninterp spec fn lossy_text(bytes: Seq<u8>) -> Seq<char>;

/// Calls `String::from_utf8_lossy` of the standard library, which decodes
/// bytes as UTF-8 and puts U+FFFD in place of what is malformed. The contract
/// only gives that text a name: the same bytes always decode to the same text.
#[verifier::external_body]
fn decode_lossy(bytes: &[u8]) -> (text: String)
    ensures
        text@ == lossy_text(bytes@),
{
    String::from_utf8_lossy(bytes).into_owned()
}

/// Reads a datagram as an answer to a discovery request and returns the
/// location it announces, as text.
pub fn receive_answer(packet: &[u8]) -> (answer: Result<String, AnswerError>)
    ensures
        match answer_location(packet@) {
            Ok(location) => answer is Ok && answer->Ok_0@ == lossy_text(location),
            Err(error) => answer == Err::<String, AnswerError>(error),
        },
{
    match locate(packet) {
        Ok((from, to)) => Ok(decode_lossy(&packet[from..to])),
        Err(error) => Err(error),
    }
}

} // verus!
