//! The node's identity: a long-lived keypair, kept in a file per port,
//! and the peer id that is derived from it.
//!
//! Keypairs and peer ids are those of `libp2p`. The library handles a
//! keypair in its protobuf encoding, the bytes of the identity file, and
//! a peer id as its text.

use libp2p::identity::Keypair;
use libp2p::PeerId;
use vstd::prelude::*;
use vstd::string::StringExecFns;
use crate::text::{decimal, push_decimal};

verus! {

/// The peer id that a text reads as, in the form in which `libp2p` writes
/// it; `None` where the text is no peer id.
pub uninterp spec fn canonical_peer_id(text: Seq<char>) -> Option<Seq<char>>;

/// The peer id of the keypair that a protobuf encoding holds; `None`
/// where the bytes hold no keypair.
pub uninterp spec fn keypair_peer_id(encoding: Seq<u8>) -> Option<Seq<char>>;

/// `PeerId::from_str`, and `PeerId::to_string` on what it gives.
#[verifier::external_body]
pub(crate) fn parse_peer_id(text: &str) -> (id: Option<String>)
    ensures
        match id {
            Some(s) => canonical_peer_id(text@) == Some(s@),
            None => canonical_peer_id(text@) is None,
        },
{
    match text.parse::<PeerId>() {
        Ok(id) => Some(id.to_string()),
        Err(_) => None,
    }
}

/// `Keypair::from_protobuf_encoding`, and the peer id of the public key
/// of what it gives.
#[verifier::external_body]
pub(crate) fn decode_identity(encoding: &[u8]) -> (peer_id: Option<String>)
    ensures
        match peer_id {
            Some(s) => keypair_peer_id(encoding@) == Some(s@),
            None => keypair_peer_id(encoding@) is None,
        },
{
    match Keypair::from_protobuf_encoding(encoding) {
        Ok(keypair) => Some(keypair.public().to_peer_id().to_string()),
        Err(_) => None,
    }
}

/// `Keypair::generate_ed25519`, in the encoding that
/// `Keypair::to_protobuf_encoding` gives it. Which keypair comes is left
/// to chance; whichever comes, an Ed25519 keypair has an encoding, and
/// that encoding holds a keypair.
#[verifier::external_body]
pub(crate) fn mint_identity() -> (encoding: Option<Vec<u8>>)
    ensures
        encoding is Some,
        encoding matches Some(bytes) ==> keypair_peer_id(bytes@) is Some,
{
    Keypair::generate_ed25519().to_protobuf_encoding().ok()
}

/// A node's identity.
#[derive(Clone, Debug, PartialEq, Eq)]
pub struct Identity {
    /// The protobuf encoding of the keypair.
    pub encoding: Vec<u8>,
    /// The peer id of the keypair.
    pub peer_id: String,
}

/// The identity that a node starts with, and where to store it.
#[derive(Clone, Debug, PartialEq, Eq)]
pub struct IdentityPlan {
    pub identity: Identity,
    /// The file to create with `identity.encoding`; `None` where the
    /// identity came from that file.
    pub write_to: Option<String>,
}

/// Why a node has no identity.
#[derive(Clone, Copy, Debug, PartialEq, Eq)]
pub enum IdentityError {
    /// The identity file does not hold a keypair.
    Corrupt,
}

/// The path of the identity file of the node on `port`.
pub open spec fn identity_path(port: u16) -> Seq<char> {
    ".key/identity_"@ + decimal(port as nat) + ".key"@
}

/// The path of the identity file of the node on `port`:
/// `.key/identity_<port>.key`.
pub fn get_identity_path(port: u16) -> (path: String)
    ensures
        path@ == identity_path(port),
{
    let mut path = String::from_str(".key/identity_");
    push_decimal(&mut path, port as u64);
    path.append(".key");
    path
}

/// Whether `plan` is a start of the node on `port` that found `stored` in
/// its identity file (`None`: no file).
///
/// A stored keypair is the identity and is not written again. Without a
/// file the identity is some keypair, to be written to the identity file.
pub open spec fn cold_start(port: u16, stored: Option<Seq<u8>>, plan: IdentityPlan) -> bool {
    &&& keypair_peer_id(plan.identity.encoding@) == Some(plan.identity.peer_id@)
    &&& match stored {
        Some(bytes) => plan.identity.encoding@ == bytes && plan.write_to is None,
        None => plan.write_to matches Some(path) && path@ == identity_path(port),
    }
}

/// The identity of the node on `port`, given the bytes of its identity
/// file, or `None` where the file does not exist.
///
/// With a file the identity is the keypair in it, and the file is left
/// alone; bytes that hold no keypair fail with `Corrupt`. Without a file
/// the start succeeds: a fresh Ed25519 keypair is made, to be written to
/// the identity file.
pub fn load_or_generate_keypair(port: u16, stored: Option<Vec<u8>>) -> (r: Result<
    IdentityPlan,
    IdentityError,
>)
    ensures
        match r {
            Ok(plan) => cold_start(
                port,
                match stored {
                    Some(bytes) => Some(bytes@),
                    None => None,
                },
                plan,
            ),
            Err(e) => match stored {
                Some(bytes) => e == IdentityError::Corrupt && keypair_peer_id(bytes@) is None,
                None => false,
            },
        },
{
    match stored {
        Some(encoding) => match decode_identity(encoding.as_slice()) {
            Some(peer_id) => Ok(
                IdentityPlan { identity: Identity { encoding, peer_id }, write_to: None },
            ),
            None => Err(IdentityError::Corrupt),
        },
        None => {
            let encoding = mint_identity().unwrap();
            let peer_id = decode_identity(encoding.as_slice()).unwrap();
            Ok(
                IdentityPlan {
                    identity: Identity { encoding, peer_id },
                    write_to: Some(get_identity_path(port)),
                },
            )
        },
    }
}

/// A node keeps its identity over restarts. If a first start without an
/// identity file wrote `first`, a second start that finds that file has
/// the same peer id and writes nothing.
pub proof fn lemma_identity_persists(port: u16, first: IdentityPlan, second: IdentityPlan)
    requires
        cold_start(port, None, first),
        cold_start(port, Some(first.identity.encoding@), second),
    ensures
        second.identity.peer_id@ == first.identity.peer_id@,
        second.write_to is None,
{
}

/// Two starts that find the same identity file have the same peer id,
/// and neither writes the file.
pub proof fn lemma_identity_is_read_not_written(
    port: u16,
    stored: Seq<u8>,
    first: IdentityPlan,
    second: IdentityPlan,
)
    requires
        cold_start(port, Some(stored), first),
        cold_start(port, Some(stored), second),
    ensures
        second.identity.peer_id@ == first.identity.peer_id@,
        first.write_to is None,
        second.write_to is None,
{
}

} // verus!
