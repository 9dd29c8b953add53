//! The message pump that runs once the session is established.
//!
//! The pump bridges two directions. Outbound: a line from the interface
//! channel, already encoded as `content,name`, is published to the gossip
//! topic as its UTF-8 bytes, unmodified; a publish failure is reported and
//! the pump continues. Inbound: a gossip payload is decoded lossily, split
//! at its first comma, and forwarded to the interface channel as one line
//! `name, HH:MM:SS` then `content` on the next line; every other session
//! event is consumed silently.

use vstd::prelude::*;
use vstd::string::StrSliceExecFns;
use vstd::string::StringExecFns;
use vstd::string::StringSliceAdditionalSpecFns;
use crate::codec::{decode_message, spec_decode_content, spec_decode_name};
use crate::establish::Event;
use crate::text::{clock_text, lossy_decode_of, push_char, spec_clock_text, utf8_lossy};

verus! {

/// The line forwarded to the interface for an inbound payload, decoded
/// lossily: the sender's name, a comma and a space, the wall-clock time,
/// a line break, then the content.
pub open spec fn spec_inbound_line(payload: Seq<u8>, h: int, m: int, s: int) -> Seq<char> {
    lossy_decode_of(spec_decode_name(payload)) + seq![',', ' '] + spec_clock_text(h, m, s)
        + seq!['\r', '\n'] + lossy_decode_of(spec_decode_content(payload))
}

/// The line forwarded to the interface when both halves of the payload are
/// valid UTF-8: the same line, with each half decoded exactly.
pub open spec fn spec_inbound_line_exact(payload: Seq<u8>, h: int, m: int, s: int) -> Seq<char> {
    vstd::utf8::decode_utf8(spec_decode_name(payload)) + seq![',', ' '] + spec_clock_text(h, m, s)
        + seq!['\r', '\n'] + vstd::utf8::decode_utf8(spec_decode_content(payload))
}

/// Format one inbound gossip payload for the interface.
pub fn inbound_line(payload: &Vec<u8>, h: u8, m: u8, s: u8) -> (r: String)
    requires
        h < 24,
        m < 60,
        s < 60,
    ensures
        r@ == spec_inbound_line(payload@, h as int, m as int, s as int),
        vstd::utf8::valid_utf8(spec_decode_name(payload@)) && vstd::utf8::valid_utf8(
            spec_decode_content(payload@),
        ) ==> r@ == spec_inbound_line_exact(payload@, h as int, m as int, s as int),
{
    let (content, name) = decode_message(payload);
    let mut r = utf8_lossy(&name);
    push_char(&mut r, ',');
    push_char(&mut r, ' ');
    let clock = clock_text(h, m, s);
    r.append(clock.as_str());
    push_char(&mut r, '\r');
    push_char(&mut r, '\n');
    let text = utf8_lossy(&content);
    r.append(text.as_str());
    proof {
        assert(r@ =~= spec_inbound_line(payload@, h as int, m as int, s as int));
        if vstd::utf8::valid_utf8(spec_decode_name(payload@)) && vstd::utf8::valid_utf8(
            spec_decode_content(payload@),
        ) {
            assert(r@ =~= spec_inbound_line_exact(payload@, h as int, m as int, s as int));
        }
    }
    r
}

/// Round trip to the interface: a payload produced from text by the wire
/// encoding is forwarded as exactly the sender's name, the wall clock, and
/// the content, for any content without a comma and any name at all.
pub proof fn lemma_round_trip_to_interface(
    content: Seq<char>,
    name: Seq<char>,
    h: int,
    m: int,
    s: int,
)
    requires
        !content.contains(','),
    ensures
        ({
            let payload = vstd::utf8::encode_utf8(content + seq![','] + name);
            &&& vstd::utf8::valid_utf8(spec_decode_name(payload))
            &&& vstd::utf8::valid_utf8(spec_decode_content(payload))
            &&& spec_inbound_line_exact(payload, h, m, s) == name + seq![',', ' ']
                + spec_clock_text(h, m, s) + seq!['\r', '\n'] + content
        }),
{
    crate::codec::lemma_text_round_trip(content, name);
}

/// The pump's decision on one session event at the given wall-clock time: a
/// received gossip message becomes one formatted line for the interface;
/// every other event is consumed and discarded.
pub fn handle_net_event(e: &Event, h: u8, m: u8, s: u8) -> (r: Option<String>)
    requires
        h < 24,
        m < 60,
        s < 60,
    ensures
        e matches Event::GossipMessageReceived(p) ==> (r matches Some(line) && line@
            == spec_inbound_line(p@, h as int, m as int, s as int)),
        !(e matches Event::GossipMessageReceived(_)) ==> r is None,
{
    match e {
        Event::GossipMessageReceived(p) => Some(inbound_line(p, h, m, s)),
        _ => None,
    }
}

/// The bytes published to the gossip topic for one interface line: the
/// line's UTF-8 bytes, carried unmodified.
pub fn outbound_payload(line: &str) -> (r: Vec<u8>)
    ensures
        r@ == line.spec_bytes(),
{
    line.as_bytes_vec()
}

} // verus!
