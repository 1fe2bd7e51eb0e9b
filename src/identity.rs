//! The node's network identity: an ed25519 key pair whose private half is kept,
//! hex-encoded, in a file of the data directory. A stored key is always loaded;
//! a fresh one is generated only when no file exists.

use vstd::prelude::*;

use p2panda_rs::identity::error::KeyPairError;
use p2panda_rs::identity::KeyPair;

verus! {

#[verifier::external_type_specification]
#[verifier::external_body]
pub struct ExKeyPair(KeyPair);

#[verifier::external_type_specification]
#[verifier::external_body]
pub struct ExKeyPairError(KeyPairError);

/// The bytes of a key pair's private key.
pub uninterp spec fn private_key_of(k: KeyPair) -> Seq<u8>;

/// The bytes of the public key that a key pair holds.
pub uninterp spec fn public_key_of(k: KeyPair) -> Seq<u8>;

/// The ed25519 public key that ed25519-dalek derives from a private key's
/// bytes (`PublicKey: From<&SecretKey>`); it depends on those bytes alone.
pub uninterp spec fn derived_public_key(secret: Seq<u8>) -> Seq<u8>;

/// Relies on p2panda_rs's `KeyPair::new`, through ed25519-dalek's
/// `Keypair::generate`: a random private key, and the public key derived from
/// it. Nothing is known of which private key.
pub assume_specification[ KeyPair::new ]() -> (r: KeyPair)
    ensures
        public_key_of(r) == derived_public_key(private_key_of(r)),
;

/// Number of bytes in a private key.
pub const PRIVATE_KEY_LENGTH: usize = 32;

/// Access mode of the identity file on POSIX systems: read and write for the owner.
pub const OWNER_ONLY_MODE: u32 = 0o600;

/// The lower-case hex digit of a value below 16.
pub open spec fn hex_digit(n: u8) -> char {
    seq!['0', '1', '2', '3', '4', '5', '6', '7', '8', '9', 'a', 'b', 'c', 'd', 'e', 'f'][n as int]
}

/// Lower-case hex encoding: two digits per byte, high nibble first.
pub open spec fn hex_spec(b: Seq<u8>) -> Seq<char>
    decreases b.len(),
{
    if b.len() == 0 {
        Seq::empty()
    } else {
        hex_spec(b.drop_last()) + seq![hex_digit(b.last() / 16), hex_digit(b.last() % 16)]
    }
}

pub open spec fn is_hex_char(c: char) -> bool {
    ('0' <= c && c <= '9') || ('a' <= c && c <= 'f') || ('A' <= c && c <= 'F')
}

/// The value of a hex digit of either case.
pub open spec fn hex_value(c: char) -> int {
    if '0' <= c && c <= '9' {
        c as int - '0' as int
    } else if 'a' <= c && c <= 'f' {
        c as int - 'a' as int + 10
    } else {
        c as int - 'A' as int + 10
    }
}

/// The bytes that a text of hex digit pairs writes, high nibble first.
pub open spec fn hex_decode_spec(s: Seq<char>) -> Seq<u8>
    decreases s.len(),
{
    if s.len() < 2 {
        Seq::empty()
    } else {
        hex_decode_spec(s.subrange(0, s.len() - 2)).push(
            (hex_value(s[s.len() - 2]) * 16 + hex_value(s[s.len() - 1])) as u8,
        )
    }
}

/// Whether `s` has the shape of a stored private key: exactly two hex digits
/// for each of its bytes, nothing else.
pub open spec fn valid_key_text(s: Seq<char>) -> bool {
    s.len() == 2 * PRIVATE_KEY_LENGTH && forall|i: int| 0 <= i < s.len() ==> is_hex_char(s[i])
}

/// Why a stored identity could not be loaded.
#[derive(Debug, Clone, Copy, PartialEq, Eq, Structural)]
pub enum IdentityError {
    /// The file does not hold exactly one hex-encoded private key.
    Malformed,
}

/// One step of writing the identity file, in the order in which they run.
#[derive(Debug, Clone, Copy, PartialEq, Eq, Structural)]
pub enum SaveStep {
    Create,
    Write,
    Sync,
    RestrictPermissions,
}

/// Relies on hex::encode: lower-case digits, two for each byte, high nibble first.
#[verifier::external_body]
fn encode_hex(b: &Vec<u8>) -> (r: String)
    ensures
        r@ == hex_spec(b@),
{
    hex::encode(b)
}

/// Relies on p2panda_rs's `KeyPair::private_key` and ed25519-dalek's
/// `SecretKey::to_bytes`: the private key's bytes, of which there are 32.
#[verifier::external_body]
fn private_key_bytes(key_pair: &KeyPair) -> (r: Vec<u8>)
    ensures
        r@ == private_key_of(*key_pair),
        r@.len() == PRIVATE_KEY_LENGTH,
{
    key_pair.private_key().to_bytes().to_vec()
}

/// Relies on p2panda_rs's `KeyPair::public_key` and `PublicKey::to_bytes`:
/// the bytes of the public key the pair holds.
#[verifier::external_body]
fn read_public_key(key_pair: &KeyPair) -> (r: Vec<u8>)
    ensures
        r@ == public_key_of(*key_pair),
{
    key_pair.public_key().to_bytes().to_vec()
}

/// Relies on p2panda_rs's `KeyPair::from_private_key_str`: it hex-decodes the
/// text (digits of either case), takes the result as the private key when it
/// has 32 bytes, and pairs it with the public key derived from it; otherwise
/// it fails.
#[verifier::external_body]
fn key_pair_from_hex(text: &str) -> (r: Result<KeyPair, KeyPairError>)
    ensures
        r is Ok <==> valid_key_text(text@),
        r is Ok ==> private_key_of(r->Ok_0) == hex_decode_spec(text@),
        r is Ok ==> public_key_of(r->Ok_0) == derived_public_key(private_key_of(r->Ok_0)),
{
    KeyPair::from_private_key_str(text)
}

/// The node's public identity: the bytes of its public key.
pub fn public_key_bytes(key_pair: &KeyPair) -> (r: Vec<u8>)
    ensures
        r@ == public_key_of(*key_pair),
{
    read_public_key(key_pair)
}

/// Whether `text` has the shape of a stored private key.
pub fn is_valid_key_text(text: &str) -> (r: bool)
    ensures
        r == valid_key_text(text@),
{
    let n = text.unicode_len();
    if n != 2 * PRIVATE_KEY_LENGTH {
        return false;
    }
    let mut i: usize = 0;
    while i < n
        invariant
            n == text@.len(),
            i <= n,
            forall|j: int| 0 <= j < i ==> is_hex_char(text@[j]),
        decreases n - i,
    {
        let c = text.get_char(i);
        if !(('0' <= c && c <= '9') || ('a' <= c && c <= 'f') || ('A' <= c && c <= 'F')) {
            return false;
        }
        i = i + 1;
    }
    true
}

/// Derives the key pair from the contents of an identity file: the key that
/// the text encodes. A malformed file is an error, never a reason to generate
/// a new identity.
pub fn load_key_pair(text: &str) -> (r: Result<KeyPair, IdentityError>)
    ensures
        r is Ok <==> valid_key_text(text@),
        r is Ok ==> private_key_of(r->Ok_0) == hex_decode_spec(text@),
        r is Ok ==> public_key_of(r->Ok_0) == derived_public_key(private_key_of(r->Ok_0)),
        r is Err ==> r == Err::<KeyPair, IdentityError>(IdentityError::Malformed),
{
    if !is_valid_key_text(text) {
        return Err(IdentityError::Malformed);
    }
    match key_pair_from_hex(text) {
        Ok(kp) => Ok(kp),
        Err(_) => Err(IdentityError::Malformed),
    }
}

/// Hex encoding has the stored shape: two hex digits per byte.
pub proof fn lemma_hex_spec_shape(b: Seq<u8>)
    ensures
        hex_spec(b).len() == 2 * b.len(),
        forall|i: int| 0 <= i < hex_spec(b).len() ==> is_hex_char(#[trigger] hex_spec(b)[i]),
    decreases b.len(),
{
    if b.len() > 0 {
        lemma_hex_spec_shape(b.drop_last());
        let hi = b.last() / 16;
        let lo = b.last() % 16;
        lemma_hex_digit(hi);
        lemma_hex_digit(lo);
        let h = hex_spec(b);
        let p = hex_spec(b.drop_last());
        assert forall|i: int| 0 <= i < h.len() implies is_hex_char(#[trigger] h[i]) by {
            if i < p.len() {
                assert(h[i] == p[i]);
            }
        }
    }
}

proof fn lemma_hex_digit(n: u8)
    requires
        n < 16,
    ensures
        is_hex_char(hex_digit(n)),
        hex_value(hex_digit(n)) == n,
{
    assert(n == 0 || n == 1 || n == 2 || n == 3 || n == 4 || n == 5 || n == 6 || n == 7 || n == 8
        || n == 9 || n == 10 || n == 11 || n == 12 || n == 13 || n == 14 || n == 15);
}

/// Decoding the hex encoding of bytes gives the bytes back.
pub proof fn lemma_hex_round_trip(b: Seq<u8>)
    ensures
        hex_decode_spec(hex_spec(b)) == b,
    decreases b.len(),
{
    lemma_hex_spec_shape(b);
    if b.len() > 0 {
        let p = b.drop_last();
        lemma_hex_round_trip(p);
        lemma_hex_spec_shape(p);
        let h = hex_spec(b);
        let x = b.last();
        lemma_hex_digit(x / 16);
        lemma_hex_digit(x % 16);
        assert(h.subrange(0, h.len() - 2) =~= hex_spec(p));
        assert(h[h.len() - 2] == hex_digit(x / 16));
        assert(h[h.len() - 1] == hex_digit(x % 16));
        assert((x / 16) as int * 16 + (x % 16) as int == x as int);
        assert(hex_decode_spec(h) =~= b);
    }
}

/// The text to store for a key pair: its private key, hex-encoded.
pub fn encode_key_pair(key_pair: &KeyPair) -> (r: String)
    ensures
        r@ == hex_spec(private_key_of(*key_pair)),
        valid_key_text(r@),
{
    let bytes = private_key_bytes(key_pair);
    let r = encode_hex(&bytes);
    proof {
        lemma_hex_spec_shape(bytes@);
    }
    r
}

/// A fresh key pair and the text to store for it.
pub fn generate_key_pair() -> (r: (KeyPair, String))
    ensures
        r.1@ == hex_spec(private_key_of(r.0)),
        valid_key_text(r.1@),
        public_key_of(r.0) == derived_public_key(private_key_of(r.0)),
{
    let key_pair = KeyPair::new();
    let text = encode_key_pair(&key_pair);
    (key_pair, text)
}

/// The node's identity given what its identity file holds, if it exists: a
/// stored key is loaded, and an error there is returned rather than replaced;
/// without a file a fresh key pair is generated, together with the text to
/// store for it.
pub fn generate_or_load_key_pair(stored: Option<&str>) -> (r: Result<
    (KeyPair, Option<String>),
    IdentityError,
>)
    ensures
        match stored {
            Some(text) => {
                &&& r is Ok <==> valid_key_text(text@)
                &&& r is Ok ==> r->Ok_0.1 is None && private_key_of(r->Ok_0.0) == hex_decode_spec(
                    text@,
                ) && public_key_of(r->Ok_0.0) == derived_public_key(private_key_of(r->Ok_0.0))
                &&& r is Err ==> r == Err::<(KeyPair, Option<String>), IdentityError>(
                    IdentityError::Malformed,
                )
            },
            None => {
                &&& r is Ok
                &&& r->Ok_0.1 is Some
                &&& r->Ok_0.1->Some_0@ == hex_spec(private_key_of(r->Ok_0.0))
                &&& public_key_of(r->Ok_0.0) == derived_public_key(private_key_of(r->Ok_0.0))
                &&& valid_key_text(r->Ok_0.1->Some_0@)
            },
        },
{
    match stored {
        Some(text) => match load_key_pair(text) {
            Ok(kp) => Ok((kp, None)),
            Err(e) => Err(e),
        },
        None => {
            let (kp, text) = generate_key_pair();
            Ok((kp, Some(text)))
        },
    }
}

/// Identity stability: a key pair `loaded` from the text stored for a fresh
/// key pair `fresh` has the same private key and the same public key, so the
/// stored identity comes back as it was, never regenerated. (The requirements
/// are what `generate_or_load_key_pair` ensures of a fresh key pair and of a
/// loaded one.)
pub proof fn lemma_stored_identity_loads(fresh: KeyPair, loaded: KeyPair)
    requires
        private_key_of(fresh).len() == PRIVATE_KEY_LENGTH,
        public_key_of(fresh) == derived_public_key(private_key_of(fresh)),
        private_key_of(loaded) == hex_decode_spec(hex_spec(private_key_of(fresh))),
        public_key_of(loaded) == derived_public_key(private_key_of(loaded)),
    ensures
        valid_key_text(hex_spec(private_key_of(fresh))),
        private_key_of(loaded) == private_key_of(fresh),
        public_key_of(loaded) == public_key_of(fresh),
{
    lemma_hex_spec_shape(private_key_of(fresh));
    lemma_hex_round_trip(private_key_of(fresh));
}

/// The steps of writing the identity file. Where the platform has POSIX
/// permissions, tightening them comes last, right after the data is synced.
pub open spec fn save_steps_spec(posix: bool) -> Seq<SaveStep> {
    if posix {
        seq![SaveStep::Create, SaveStep::Write, SaveStep::Sync, SaveStep::RestrictPermissions]
    } else {
        seq![SaveStep::Create, SaveStep::Write, SaveStep::Sync]
    }
}

/// The steps of writing the identity file on a platform with or without POSIX
/// permissions.
pub fn save_steps(posix: bool) -> (r: Vec<SaveStep>)
    ensures
        r@ == save_steps_spec(posix),
{
    let mut r: Vec<SaveStep> = Vec::new();
    r.push(SaveStep::Create);
    r.push(SaveStep::Write);
    r.push(SaveStep::Sync);
    if posix {
        r.push(SaveStep::RestrictPermissions);
    }
    proof {
        assert(r@ =~= save_steps_spec(posix));
    }
    r
}

/// Whether a POSIX access mode lets the group or others read, write or execute.
pub open spec fn grants_group_or_other_spec(mode: u32) -> bool {
    mode & 0o077 != 0
}

/// Whether a POSIX access mode lets the group or others read, write or execute.
pub fn grants_group_or_other(mode: u32) -> (r: bool)
    ensures
        r == grants_group_or_other_spec(mode),
{
    mode & 0o077 != 0
}

/// The mode the identity file is given grants nothing to group or others,
/// while the owner can read and write it.
pub proof fn lemma_owner_only_mode()
    ensures
        !grants_group_or_other_spec(OWNER_ONLY_MODE),
        OWNER_ONLY_MODE & 0o600 == 0o600,
{
    assert(0o600u32 & 0o077u32 == 0) by (bit_vector);
    assert(0o600u32 & 0o600u32 == 0o600) by (bit_vector);
}

} // verus!
