//! The settings of the overlay transport and of gossip, as far as they
//! are this node's own choice.

use std::collections::hash_map::DefaultHasher;
use std::hash::{Hash, Hasher};
use vstd::prelude::*;
use vstd::std_specs::hash::DefaultHasherAdditionalSpecFns;
use vstd::string::StringExecFns;
use crate::text::{decimal, push_decimal};

verus! {

/// The interval between two gossip heartbeats, in seconds.
pub const HEARTBEAT_SECS: u64 = 10;

/// The interval between two pings on a connection, in seconds.
pub const PING_INTERVAL_SECS: u64 = 60;

/// The time after which an unanswered ping has failed, in seconds.
pub const PING_TIMEOUT_SECS: u64 = 30;

/// The number of telemetry events that are kept for a slow subscriber
/// before the oldest is dropped.
pub const TELEMETRY_CAPACITY: usize = 100;

/// The protocol version that a node announces when it identifies
/// itself.
pub fn protocol_version() -> (version: &'static str)
    ensures
        version@ == "ghostmesh/1.0.0"@,
{
    "ghostmesh/1.0.0"
}

/// The address on which the node on `port` listens: TCP on all
/// interfaces.
pub open spec fn listen_address_text(port: u16) -> Seq<char> {
    "/ip4/0.0.0.0/tcp/"@ + decimal(port as nat)
}

/// The address on which the node on `port` listens.
pub fn listen_address(port: u16) -> (address: String)
    ensures
        address@ == listen_address_text(port),
{
    let mut address = String::from_str("/ip4/0.0.0.0/tcp/");
    push_decimal(&mut address, port as u64);
    address
}

/// What `<[u8] as Hash>::hash` writes into a hasher for a payload: the
/// writes depend on the payload alone.
pub uninterp spec fn hashed_writes(payload: Seq<u8>) -> Seq<Seq<u8>>;

/// The content hash of a payload: what a hasher from `DefaultHasher::new`
/// gives once the payload has been fed to it.
pub open spec fn content_hash(payload: Seq<u8>) -> u64 {
    DefaultHasher::spec_finish(hashed_writes(payload))
}

/// `<[u8] as Hash>::hash`: feeds the payload to the hasher, which takes
/// the writes named by [`hashed_writes`] after those it holds.
#[verifier::external_body]
fn feed(payload: &[u8], hasher: &mut DefaultHasher)
    ensures
        final(hasher)@ == old(hasher)@ + hashed_writes(payload@),
{
    payload.hash(hasher)
}

/// The id of the message with content hash `digest`: the hash in
/// decimal.
pub fn message_id_of(digest: u64) -> (id: String)
    ensures
        id@ == decimal(digest as nat),
{
    let mut id = String::new();
    push_decimal(&mut id, digest);
    assert(id@ =~= decimal(digest as nat));
    id
}

/// The id by which gossip tells messages apart: the content hash of the
/// payload, in decimal. Equal payloads have equal ids.
pub fn message_id(payload: &[u8]) -> (id: String)
    ensures
        id@ == decimal(content_hash(payload@) as nat),
{
    let mut hasher = DefaultHasher::new();
    feed(payload, &mut hasher);
    assert(hasher@ =~= hashed_writes(payload@));
    message_id_of(hasher.finish())
}

} // verus!
