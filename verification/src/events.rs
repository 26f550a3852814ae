//! Reading addresses and results out of the events of a transaction.
//!
//! The node returns events as opaque byte blobs. What a blob means is decided
//! by the call that asked for it, never guessed from its content: after an
//! eBPF deployment or initialisation and after a plain call, the first event
//! is raw bytes, shown as hex; after an EVM deployment, the first event is a
//! JSON object whose `address` field holds the contract's address.
//!
//! That there is no event, or no such field, is an ordinary outcome (the node
//! may not have indexed the transaction yet) and no error.

use crate::hexcodec::{encode, encode_hex};
use vstd::prelude::*;

verus! {

/// What serde_json finds in an event when it reads it as JSON and asks for
/// the member `address`: `None` where the bytes are no JSON text;
/// `Some(None)` where they are JSON without such a member (an object that
/// lacks it, or no object at all); else the member's value as compact JSON
/// text, so that a string comes with its quotes.
pub uninterp spec fn json_address_member(event: Seq<u8>) -> Option<Option<Seq<char>>>;

/// `serde_json::from_slice` into a `Value`, then `Value::get` with the key
/// `address` and `to_string` on what it finds. Trusted.
#[verifier::external_body]
fn read_address_member(event: &[u8]) -> (member: Option<Option<String>>)
    ensures
        member.deep_view() == json_address_member(event@),
{
    match serde_json::from_slice::<serde_json::Value>(event) {
        Ok(value) => Some(value.get("address").map(|address| address.to_string())),
        Err(_) => None,
    }
}

/// The first event is no JSON text.
#[derive(Clone, Copy, Debug, PartialEq, Eq, Structural)]
pub struct MalformedEvent;

/// The first event as hex text, if there is an event.
pub open spec fn first_event_hex_spec(events: Seq<Seq<u8>>) -> Option<Seq<char>> {
    if events.len() == 0 {
        None
    } else {
        Some(encode_hex(events[0]))
    }
}

/// The address that an EVM deployment's events hold, given what the JSON
/// reader found in the first of them: none where there is no event or no
/// `address` member, and a failure where the first event is no JSON.
pub open spec fn evm_address_spec(
    event_count: nat,
    member: Option<Option<Seq<char>>>,
) -> Result<Option<Seq<char>>, MalformedEvent> {
    if event_count == 0 {
        Ok(None)
    } else {
        match member {
            None => Err(MalformedEvent),
            Some(found) => Ok(found),
        }
    }
}

/// The address that an EVM deployment's events hold: the `address` member
/// of the first event.
pub open spec fn evm_events_spec(events: Seq<Seq<u8>>) -> Result<
    Option<Seq<char>>,
    MalformedEvent,
> {
    if events.len() == 0 {
        Ok(None)
    } else {
        evm_address_spec(events.len(), json_address_member(events[0]))
    }
}

/// The address of an eBPF deployment or initialisation: the one that the
/// node returned with its answer to the submission, else the first event as
/// hex text, else none.
pub open spec fn ebpf_address_spec(
    direct: Option<Seq<char>>,
    events: Seq<Seq<u8>>,
) -> Option<Seq<char>> {
    match direct {
        Some(address) => Some(address),
        None => first_event_hex_spec(events),
    }
}

pub open spec fn member_view(outcome: Result<Option<String>, MalformedEvent>) -> Result<
    Option<Seq<char>>,
    MalformedEvent,
> {
    match outcome {
        Ok(found) => Ok(found.deep_view()),
        Err(error) => Err(error),
    }
}

/// The first event as hex text, for display and as an address.
pub fn first_event_hex(events: &Vec<Vec<u8>>) -> (text: Option<String>)
    ensures
        text.deep_view() == first_event_hex_spec(events.deep_view()),
{
    if events.len() == 0 {
        None
    } else {
        Some(encode(events[0].as_slice()))
    }
}

/// Decides what an EVM deployment's events hold, from the number of events
/// and what the JSON reader found in the first.
pub fn evm_address_from_member(event_count: usize, member: Option<Option<String>>) -> (address:
    Result<Option<String>, MalformedEvent>)
    ensures
        member_view(address) == evm_address_spec(event_count as nat, member.deep_view()),
{
    if event_count == 0 {
        Ok(None)
    } else {
        match member {
            None => Err(MalformedEvent),
            Some(found) => Ok(found),
        }
    }
}

/// The address in the events of an EVM deployment: the `address` member of
/// the first event, as the JSON text of its value.
pub fn evm_event_address(events: &Vec<Vec<u8>>) -> (address: Result<
    Option<String>,
    MalformedEvent,
>)
    ensures
        member_view(address) == evm_events_spec(events.deep_view()),
{
    if events.len() == 0 {
        Ok(None)
    } else {
        let member = read_address_member(events[0].as_slice());
        assert(events.deep_view()[0] == events@[0]@);
        evm_address_from_member(events.len(), member)
    }
}

/// The address of an eBPF deployment or initialisation.
pub fn ebpf_event_address(direct: Option<String>, events: &Vec<Vec<u8>>) -> (address: Option<
    String,
>)
    ensures
        address.deep_view() == ebpf_address_spec(direct.deep_view(), events.deep_view()),
{
    match direct {
        Some(address) => Some(address),
        None => first_event_hex(events),
    }
}

} // verus!
