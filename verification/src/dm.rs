//! Direct messages: the envelope that travels on the private topic, and
//! how a message is sealed into one and opened again.
//!
//! Sealing is ChaCha20-Poly1305 from the `chacha20poly1305` crate, text
//! armour is standard base64 from the `base64` crate. Verus sees both
//! through names for their results.
//!
//! [`DmKeys::prototype`] is a fixed key and a fixed nonce that every node
//! shares. They keep nodes interoperable and keep nothing secret; a
//! deployment replaces them through [`DmKeys::new`].

use base64::engine::general_purpose::STANDARD;
use base64::Engine;
use chacha20poly1305::aead::Aead;
use chacha20poly1305::{ChaCha20Poly1305, Key, KeyInit, Nonce};
use vstd::prelude::*;
use vstd::string::StringExecFns;
use vstd::utf8::{decode_utf8, encode_utf8, valid_utf8};

verus! {

/// The length of a ChaCha20-Poly1305 key in bytes.
pub const KEY_LEN: usize = 32;

/// The length of a ChaCha20-Poly1305 nonce in bytes.
pub const NONCE_LEN: usize = 12;

/// The length of the authentication tag that sealing appends.
pub const TAG_LEN: usize = 16;

/// The key that every node uses until a deployment supplies its own.
pub const PROTOTYPE_KEY: [u8; 32] = [
    97, 110, 32, 101, 120, 97, 109, 112, 108, 101, 32, 118, 101, 114, 121, 32, 118, 101, 114, 121,
    32, 115, 101, 99, 114, 101, 116, 32, 107, 101, 121, 46,
];

/// The nonce that every node uses until a deployment supplies its own.
pub const PROTOTYPE_NONCE: [u8; 12] = [117, 110, 105, 113, 117, 101, 32, 110, 111, 110, 99, 101];

/// What `ChaCha20Poly1305::encrypt` returns for a key of 32 bytes, a nonce
/// of 12 bytes and a plaintext, without associated data: the ciphertext
/// followed by its tag; `None` where it refuses.
pub uninterp spec fn aead_seal(key: Seq<u8>, nonce: Seq<u8>, plaintext: Seq<u8>) -> Option<
    Seq<u8>,
>;

/// What `ChaCha20Poly1305::decrypt` returns for a key of 32 bytes, a nonce
/// of 12 bytes and a sealed message, without associated data: the
/// plaintext; `None` where the message does not authenticate.
pub uninterp spec fn aead_open(key: Seq<u8>, nonce: Seq<u8>, sealed: Seq<u8>) -> Option<Seq<u8>>;

/// The standard base64 text, with padding, of a sequence of bytes.
pub uninterp spec fn base64_text(bytes: Seq<u8>) -> Seq<char>;

/// The bytes that a standard base64 text stands for; `None` where the
/// text is not standard base64.
pub uninterp spec fn base64_bytes(text: Seq<char>) -> Option<Seq<u8>>;

/// The text that `String::from_utf8_lossy` makes of bytes that are not
/// UTF-8: the text of the valid parts, with a replacement character for
/// each invalid one.
pub uninterp spec fn lossy_text(bytes: Seq<u8>) -> Seq<char>;

/// The text of a sequence of bytes: the text that the bytes encode where
/// they are UTF-8, a lossy reading of them where they are not.
pub open spec fn text_of(bytes: Seq<u8>) -> Seq<char> {
    if valid_utf8(bytes) {
        decode_utf8(bytes)
    } else {
        lossy_text(bytes)
    }
}

/// `ChaCha20Poly1305::encrypt` under `key` and `nonce`. The result is the
/// one named by [`aead_seal`]; it is 16 bytes longer than the plaintext,
/// and `ChaCha20Poly1305::decrypt` under the same key and nonce gives the
/// plaintext back.
#[verifier::external_body]
pub(crate) fn seal(key: &[u8], nonce: &[u8], plaintext: &[u8]) -> (sealed: Option<Vec<u8>>)
    requires
        key@.len() == KEY_LEN,
        nonce@.len() == NONCE_LEN,
        plaintext@.len() + TAG_LEN <= usize::MAX,
    ensures
        match sealed {
            Some(bytes) => {
                &&& aead_seal(key@, nonce@, plaintext@) == Some(bytes@)
                &&& bytes@.len() == plaintext@.len() + TAG_LEN
                &&& aead_open(key@, nonce@, bytes@) == Some(plaintext@)
            },
            None => aead_seal(key@, nonce@, plaintext@) is None,
        },
{
    ChaCha20Poly1305::new(Key::from_slice(key)).encrypt(Nonce::from_slice(nonce), plaintext).ok()
}

/// `ChaCha20Poly1305::decrypt` under `key` and `nonce`. The result is the
/// one named by [`aead_open`].
#[verifier::external_body]
pub(crate) fn open(key: &[u8], nonce: &[u8], sealed: &[u8]) -> (plaintext: Option<Vec<u8>>)
    requires
        key@.len() == KEY_LEN,
        nonce@.len() == NONCE_LEN,
    ensures
        match plaintext {
            Some(bytes) => aead_open(key@, nonce@, sealed@) == Some(bytes@),
            None => aead_open(key@, nonce@, sealed@) is None,
        },
{
    ChaCha20Poly1305::new(Key::from_slice(key)).decrypt(Nonce::from_slice(nonce), sealed).ok()
}

/// `Engine::encode` of the standard base64 engine. The text is the one
/// named by [`base64_text`], and `Engine::decode` reads the same bytes
/// back from it.
#[verifier::external_body]
pub(crate) fn base64_encode(bytes: &[u8]) -> (text: String)
    requires
        bytes@.len() <= usize::MAX / 2,
    ensures
        text@ == base64_text(bytes@),
        base64_bytes(text@) == Some(bytes@),
{
    STANDARD.encode(bytes)
}

/// `Engine::decode` of the standard base64 engine.
#[verifier::external_body]
pub(crate) fn base64_decode(text: &str) -> (bytes: Option<Vec<u8>>)
    ensures
        match bytes {
            Some(b) => base64_bytes(text@) == Some(b@),
            None => base64_bytes(text@) is None,
        },
{
    STANDARD.decode(text).ok()
}

/// `String::from_utf8_lossy`, as an owned string. Bytes that are UTF-8
/// become the text they encode; other bytes become the text named by
/// [`lossy_text`].
#[verifier::external_body]
pub(crate) fn utf8_lossy(bytes: &[u8]) -> (text: String)
    ensures
        text@ == if valid_utf8(bytes@) {
            decode_utf8(bytes@)
        } else {
            lossy_text(bytes@)
        },
{
    String::from_utf8_lossy(bytes).into_owned()
}

/// The key and the nonce under which direct messages are sealed.
#[derive(Clone, Copy, Debug, PartialEq, Eq)]
pub struct DmKeys {
    pub key: [u8; 32],
    pub nonce: [u8; 12],
}

impl DmKeys {
    /// The keys of a deployment.
    pub fn new(key: [u8; 32], nonce: [u8; 12]) -> (keys: Self)
        ensures
            keys.key == key,
            keys.nonce == nonce,
    {
        DmKeys { key, nonce }
    }

    /// The fixed key and nonce that all nodes share by default.
    pub fn prototype() -> (keys: Self)
        ensures
            keys.key == PROTOTYPE_KEY,
            keys.nonce == PROTOTYPE_NONCE,
    {
        DmKeys { key: PROTOTYPE_KEY, nonce: PROTOTYPE_NONCE }
    }
}

/// The envelope of a direct message: the recipient's peer id in the
/// clear, the sealed message and the nonce in base64.
#[derive(Clone, Debug, PartialEq, Eq)]
pub struct PrivateMessage {
    pub to: String,
    pub ciphertext: String,
    pub nonce: String,
}

/// An envelope as a mathematical value.
pub struct PrivateMessageView {
    pub to: Seq<char>,
    pub ciphertext: Seq<char>,
    pub nonce: Seq<char>,
}

impl View for PrivateMessage {
    type V = PrivateMessageView;

    open spec fn view(&self) -> PrivateMessageView {
        PrivateMessageView { to: self.to@, ciphertext: self.ciphertext@, nonce: self.nonce@ }
    }
}

/// Why an envelope gave no message.
#[derive(Clone, Copy, Debug, PartialEq, Eq)]
pub enum DmError {
    /// The nonce or the ciphertext is not base64, or the nonce has not 12
    /// bytes.
    Malformed,
    /// The sealed message did not authenticate under the key.
    Rejected,
}

/// The longest plaintext that is sealed: one whose sealed form can still
/// be written as base64.
pub open spec fn max_plaintext_len() -> int {
    usize::MAX / 2 - TAG_LEN
}

/// The envelope that carries `content` to `to` under `keys`, or `None`
/// where the content is too long or the cipher refuses it.
pub open spec fn sealed_dm(keys: DmKeys, to: Seq<char>, content: Seq<char>) -> Option<
    PrivateMessageView,
> {
    let plaintext = encode_utf8(content);
    if plaintext.len() > max_plaintext_len() {
        None
    } else {
        match aead_seal(keys.key@, keys.nonce@, plaintext) {
            Some(sealed) => Some(
                PrivateMessageView {
                    to,
                    ciphertext: base64_text(sealed),
                    nonce: base64_text(keys.nonce@),
                },
            ),
            None => None,
        }
    }
}

/// What an envelope holds under `keys`: the message, or why there is
/// none. The nonce is the one that the envelope carries.
pub open spec fn opened_dm(keys: DmKeys, message: PrivateMessageView) -> Result<
    Seq<char>,
    DmError,
> {
    match base64_bytes(message.nonce) {
        None => Err(DmError::Malformed),
        Some(nonce) => if nonce.len() != NONCE_LEN {
            Err(DmError::Malformed)
        } else {
            match base64_bytes(message.ciphertext) {
                None => Err(DmError::Malformed),
                Some(sealed) => match aead_open(keys.key@, nonce, sealed) {
                    None => Err(DmError::Rejected),
                    Some(plaintext) => Ok(text_of(plaintext)),
                },
            }
        },
    }
}

/// Whether an envelope opens to `content` for every holder of `key`.
pub open spec fn opens_to(message: PrivateMessageView, key: [u8; 32], content: Seq<char>) -> bool {
    forall|reader: DmKeys|
        reader.key == key ==> #[trigger] opened_dm(reader, message) == Ok::<Seq<char>, DmError>(
            content,
        )
}

/// The envelope for a message that has been sealed already. Both parts
/// can be read back from it.
pub fn envelope(to: &str, sealed: &[u8], nonce: &[u8]) -> (message: PrivateMessage)
    requires
        sealed@.len() <= usize::MAX / 2,
        nonce@.len() <= usize::MAX / 2,
    ensures
        message@ == (PrivateMessageView {
            to: to@,
            ciphertext: base64_text(sealed@),
            nonce: base64_text(nonce@),
        }),
        base64_bytes(message.ciphertext@) == Some(sealed@),
        base64_bytes(message.nonce@) == Some(nonce@),
{
    PrivateMessage {
        to: String::from_str(to),
        ciphertext: base64_encode(sealed),
        nonce: base64_encode(nonce),
    }
}

/// Seals `content` for the peer `to` under `keys`.
///
/// The envelope is addressed to `to`, and whoever opens it with the same
/// key reads `content`.
pub fn seal_dm(keys: &DmKeys, to: &str, content: &str) -> (message: Option<PrivateMessage>)
    ensures
        match message {
            Some(m) => sealed_dm(*keys, to@, content@) == Some(m@) && opens_to(
                m@,
                keys.key,
                content@,
            ),
            None => sealed_dm(*keys, to@, content@) is None,
        },
{
    proof {
        vstd::utf8::encode_utf8_valid_utf8(content@);
        vstd::utf8::encode_utf8_decode_utf8(content@);
    }
    let plaintext = content.as_bytes();
    if plaintext.len() > usize::MAX / 2 - TAG_LEN {
        return None;
    }
    match seal(keys.key.as_slice(), keys.nonce.as_slice(), plaintext) {
        Some(sealed) => Some(envelope(to, sealed.as_slice(), keys.nonce.as_slice())),
        None => None,
    }
}

/// Opens an envelope under `keys`.
pub fn open_dm(keys: &DmKeys, message: &PrivateMessage) -> (content: Result<String, DmError>)
    ensures
        match content {
            Ok(text) => opened_dm(*keys, message@) == Ok::<Seq<char>, DmError>(text@),
            Err(e) => opened_dm(*keys, message@) == Err::<Seq<char>, DmError>(e),
        },
{
    let nonce = match base64_decode(message.nonce.as_str()) {
        Some(nonce) => nonce,
        None => { return Err(DmError::Malformed); },
    };
    if nonce.len() != NONCE_LEN {
        return Err(DmError::Malformed);
    }
    let sealed = match base64_decode(message.ciphertext.as_str()) {
        Some(sealed) => sealed,
        None => { return Err(DmError::Malformed); },
    };
    match open(keys.key.as_slice(), nonce.as_slice(), sealed.as_slice()) {
        Some(plaintext) => Ok(utf8_lossy(plaintext.as_slice())),
        None => Err(DmError::Rejected),
    }
}

} // verus!
