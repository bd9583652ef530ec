//! The commitment generator: a fresh secret per round, and the one-way hash
//! that binds a choice to it.
use vstd::prelude::*;
use vstd::string::StringSliceAdditionalSpecFns;
use vstd::utf8::{decode_utf8, encode_utf8, is_ascii_chars};

use rand::Rng;
use sha2::Digest;

use crate::model::Play;

verus! {

/// The lowercase hexadecimal digit for a value below 16.
pub open spec fn hex_digit(n: u8) -> char {
    seq!['0', '1', '2', '3', '4', '5', '6', '7', '8', '9', 'a', 'b', 'c', 'd', 'e', 'f'][n as int]
}

/// Two lowercase hexadecimal digits per byte, high half first.
pub open spec fn hex_lower(b: Seq<u8>) -> Seq<char>
    decreases b.len(),
{
    if b.len() == 0 {
        Seq::empty()
    } else {
        hex_lower(b.drop_last()) + seq![hex_digit(b.last() / 16), hex_digit(b.last() % 16)]
    }
}

/// The SHA-256 digest of a byte string.
pub uninterp spec fn sha256(data: Seq<u8>) -> Seq<u8>;

/// The bytes that are hashed for a commitment: the choice's token, then the secret.
pub open spec fn commit_preimage(play: Play, secret: Seq<char>) -> Seq<u8> {
    encode_utf8(play.value()) + encode_utf8(secret)
}

/// The commitment to `play` under `secret`, as announced on the wire.
pub open spec fn commitment(play: Play, secret: Seq<char>) -> Seq<char> {
    hex_lower(sha256(commit_preimage(play, secret)))
}

/// Whether a revealed choice and secret are the ones behind `announced`.
pub open spec fn reveal_valid(announced: Seq<char>, play: Play, secret: Seq<char>) -> bool {
    announced == commitment(play, secret)
}

/// A secret as `create_nonce` makes it: the hex text of 32 bytes.
pub open spec fn is_nonce(s: Seq<char>) -> bool {
    exists|b: Seq<u8>| b.len() == 32 && s == #[trigger] hex_lower(b)
}

/// Relies on rand's thread-local generator (`rand::rng`, `Rng::fill`) for
/// 32 random bytes; nothing is known of their values.
#[verifier::external_body]
fn random_bytes() -> (r: [u8; 32]) {
    let mut bytes = [0u8; 32];
    rand::rng().fill(&mut bytes);
    bytes
}

/// Relies on hex::encode: two lowercase digits per byte, in order.
#[verifier::external_body]
fn hex_encode(b: &[u8]) -> (r: String)
    ensures
        r@ == hex_lower(b@),
{
    hex::encode(b)
}

/// Relies on sha2's `Sha256` (`new`, `update` twice, `finalize`): the digest
/// of `first` followed by `second`.
#[verifier::external_body]
fn sha256_of_parts(first: &[u8], second: &[u8]) -> (r: [u8; 32])
    ensures
        r@ == sha256(first@ + second@),
{
    let mut hasher = sha2::Sha256::new();
    hasher.update(first);
    hasher.update(second);
    hasher.finalize().into()
}

/// A fresh 256-bit secret, as 64 lowercase hexadecimal digits.
pub fn create_nonce() -> (r: String)
    ensures
        is_nonce(r@),
{
    let bytes = random_bytes();
    let r = hex_encode(&bytes);
    assert(bytes@.len() == 32 && r@ == hex_lower(bytes@));
    r
}

/// The commitment to `play` under `nonce`.
pub fn hash_play(play: &Play, nonce: &str) -> (r: String)
    ensures
        r@ == commitment(*play, nonce@),
{
    let play_value = play.get_value();
    let digest = sha256_of_parts(play_value.as_bytes(), nonce.as_bytes());
    hex_encode(&digest)
}

/// A fresh secret and the commitment to `play` under it.
pub fn commit_to_play(play: &Play) -> (r: (String, String))
    ensures
        is_nonce(r.0@),
        r.1@ == commitment(*play, r.0@),
{
    let nonce = create_nonce();
    let hashed_play = hash_play(play, nonce.as_str());
    (nonce, hashed_play)
}

/// Whether a revealed choice and secret re-hash to the announced hash.
pub fn reveal_matches(announced: &str, play: &Play, secret: &str) -> (r: bool)
    ensures
        r == reveal_valid(announced@, *play, secret@),
{
    let recomputed = hash_play(play, secret);
    str_eq(recomputed.as_str(), announced)
}

/// Compares two strings character by character.
pub fn str_eq(a: &str, b: &str) -> (r: bool)
    ensures
        r == (a@ == b@),
{
    let x = a.as_bytes();
    let y = b.as_bytes();
    proof {
        vstd::utf8::encode_utf8_decode_utf8(a@);
        vstd::utf8::encode_utf8_decode_utf8(b@);
    }
    if x.len() != y.len() {
        return false;
    }
    let mut i: usize = 0;
    while i < x.len()
        invariant
            x@ == a.spec_bytes(),
            y@ == b.spec_bytes(),
            x@.len() == y@.len(),
            0 <= i <= x@.len(),
            x@.subrange(0, i as int) == y@.subrange(0, i as int),
        decreases x@.len() - i,
    {
        if x[i] != y[i] {
            return false;
        }
        assert(x@.subrange(0, i + 1) == x@.subrange(0, i as int).push(x@[i as int]));
        assert(y@.subrange(0, i + 1) == y@.subrange(0, i as int).push(y@[i as int]));
        i = i + 1;
    }
    assert(x@ == x@.subrange(0, i as int));
    assert(y@ == y@.subrange(0, i as int));
    true
}

/// The token of a choice is a single byte of its own.
proof fn lemma_token_encoding(play: Play)
    ensures
        encode_utf8(play.value()).len() == 1,
        encode_utf8(play.value())[0] == play.value()[0] as u8,
{
    assert(is_ascii_chars(play.value()));
    vstd::utf8::is_ascii_chars_encode_utf8(play.value());
}

/// Distinct choice and secret pairs are hashed from distinct bytes, so two
/// commitments can coincide only where SHA-256 itself collides. This holds
/// in particular for one choice under two different secrets, and for two
/// different choices under any secrets.
pub proof fn lemma_preimage_injective(p1: Play, s1: Seq<char>, p2: Play, s2: Seq<char>)
    requires
        p1 != p2 || s1 != s2,
    ensures
        commit_preimage(p1, s1) != commit_preimage(p2, s2),
{
    lemma_token_encoding(p1);
    lemma_token_encoding(p2);
    if commit_preimage(p1, s1) == commit_preimage(p2, s2) {
        let x = commit_preimage(p1, s1);
        assert(x[0] == encode_utf8(p1.value())[0]);
        assert(commit_preimage(p2, s2)[0] == encode_utf8(p2.value())[0]);
        assert(p1 == p2);
        assert(encode_utf8(s1) == x.drop_first());
        assert(encode_utf8(s2) == commit_preimage(p2, s2).drop_first());
        vstd::utf8::encode_utf8_decode_utf8(s1);
        vstd::utf8::encode_utf8_decode_utf8(s2);
        assert(decode_utf8(encode_utf8(s1)) == decode_utf8(encode_utf8(s2)));
    }
}

/// A commitment recomputed later from the same choice and secret is the one
/// announced: an honest reveal is always accepted.
pub proof fn lemma_honest_reveal_accepted(play: Play, secret: Seq<char>)
    ensures
        reveal_valid(commitment(play, secret), play, secret),
{
}

/// Once a hash is announced, a reveal is accepted exactly when its choice and
/// secret hash to it; a reveal of another choice is accepted only by way of
/// two distinct inputs with one SHA-256 digest.
pub proof fn lemma_other_choice_needs_collision(
    play: Play,
    secret: Seq<char>,
    other: Play,
    other_secret: Seq<char>,
)
    requires
        other != play,
        reveal_valid(commitment(play, secret), other, other_secret),
    ensures
        commit_preimage(play, secret) != commit_preimage(other, other_secret),
        sha256(commit_preimage(play, secret)) == sha256(commit_preimage(other, other_secret)),
{
    lemma_preimage_injective(play, secret, other, other_secret);
    lemma_hex_lower_injective(
        sha256(commit_preimage(play, secret)),
        sha256(commit_preimage(other, other_secret)),
    );
}

proof fn lemma_hex_lower_len(b: Seq<u8>)
    ensures
        hex_lower(b).len() == 2 * b.len(),
    decreases b.len(),
{
    if b.len() > 0 {
        lemma_hex_lower_len(b.drop_last());
    }
}

proof fn lemma_hex_digit_injective(m: u8, n: u8)
    requires
        m < 16,
        n < 16,
        hex_digit(m) == hex_digit(n),
    ensures
        m == n,
{
}

/// Hex text determines the bytes it was made from.
proof fn lemma_hex_lower_injective(a: Seq<u8>, b: Seq<u8>)
    requires
        hex_lower(a) == hex_lower(b),
    ensures
        a == b,
    decreases a.len(),
{
    lemma_hex_lower_len(a);
    lemma_hex_lower_len(b);
    if a.len() > 0 {
        let (ha, hb) = (hex_lower(a), hex_lower(b));
        lemma_hex_lower_len(a.drop_last());
        lemma_hex_lower_len(b.drop_last());
        let k = ha.len() - 2;
        assert(ha[k] == hex_digit(a.last() / 16));
        assert(hb[k] == hex_digit(b.last() / 16));
        assert(ha[k + 1] == hex_digit(a.last() % 16));
        assert(hb[k + 1] == hex_digit(b.last() % 16));
        lemma_hex_digit_injective(a.last() / 16, b.last() / 16);
        lemma_hex_digit_injective(a.last() % 16, b.last() % 16);
        assert(a.last() == b.last());
        assert(hex_lower(a.drop_last()) == ha.subrange(0, k));
        assert(hex_lower(b.drop_last()) == hb.subrange(0, k));
        lemma_hex_lower_injective(a.drop_last(), b.drop_last());
        assert(a == a.drop_last().push(a.last()));
        assert(b == b.drop_last().push(b.last()));
    }
}

} // verus!
