//! The credential that a runner presents when it connects.
//!
//! A token carries the runner's access key together with a seal that only
//! the holder of the codec's key can compute. It is the lower-case
//! hexadecimal text of the key's UTF-8 bytes followed by the eight bytes of
//! the seal, the most significant first. Nothing is stored per token: a token
//! is valid exactly when it is the text that the codec writes for some
//! access key.
//!
//! The seal is a keyed checksum. It makes a changed or cut token evident to
//! the codec; it is not a cryptographic signature.

use vstd::prelude::*;
use vstd::string::*;
use vstd::utf8::*;
use crate::errors::ErrorMessage;
use crate::frame::text_of_bytes;

verus! {

/// What a token carries: the access key of the runner that holds it.
#[derive(Clone, Debug, PartialEq, Eq)]
pub struct RunnerToken {
    pub access_key: String,
}

/// Writes and reads tokens under one secret key.
#[derive(Clone, Copy, Debug)]
pub struct TokenCodec {
    key: u64,
}

/// The character code of the hexadecimal digit `n`, in lower case.
pub open spec fn hex_code(n: nat) -> u8
    recommends
        n < 16,
{
    if n < 10 {
        (48 + n) as u8
    } else {
        (87 + n) as u8
    }
}

/// The hexadecimal digit `n` as a character.
pub open spec fn hex_char(n: nat) -> char
    recommends
        n < 16,
{
    hex_code(n) as char
}

/// The hexadecimal text of `bytes`: two digits for each byte, the high half first.
pub open spec fn hex_of(bytes: Seq<u8>) -> Seq<char> {
    Seq::new(
        2 * bytes.len(),
        |i: int|
            if i % 2 == 0 {
                hex_char((bytes[i / 2] / 16) as nat)
            } else {
                hex_char((bytes[i / 2] % 16) as nat)
            },
    )
}

/// One step of the seal: the state after `byte` has been taken in.
pub open spec fn stir(state: u64, byte: u8) -> u64 {
    ((state as int * 1099511628211 + byte as int + 1) % 0x1_0000_0000_0000_0000) as u64
}

/// The seal of `payload` under `key`: the key, stirred with each byte in turn.
pub open spec fn seal(key: u64, payload: Seq<u8>) -> u64
    decreases payload.len(),
{
    if payload.len() == 0 {
        key
    } else {
        stir(seal(key, payload.drop_last()), payload.last())
    }
}

/// The eight bytes of a seal, the most significant first.
pub open spec fn seal_bytes(tag: u64) -> Seq<u8> {
    seq![
        (tag / 0x100_0000_0000_0000) as u8,
        (tag / 0x1_0000_0000_0000 % 256) as u8,
        (tag / 0x100_0000_0000 % 256) as u8,
        (tag / 0x1_0000_0000 % 256) as u8,
        (tag / 0x100_0000 % 256) as u8,
        (tag / 0x1_0000 % 256) as u8,
        (tag / 0x100 % 256) as u8,
        (tag % 256) as u8,
    ]
}

/// A payload with its seal behind it.
pub open spec fn sealed(key: u64, payload: Seq<u8>) -> Seq<u8> {
    payload + seal_bytes(seal(key, payload))
}

/// The token that the codec with the key `key` writes for `access_key`.
pub open spec fn token_text(key: u64, access_key: Seq<char>) -> Seq<char> {
    hex_of(sealed(key, encode_utf8(access_key)))
}

/// Two byte strings with the same hexadecimal text are the same.
pub proof fn lemma_hex_names_one_string(a: Seq<u8>, b: Seq<u8>)
    requires
        hex_of(a) == hex_of(b),
    ensures
        a == b,
{
    assert(hex_of(a).len() == 2 * a.len());
    assert(hex_of(b).len() == 2 * b.len());
    assert forall|j: int| 0 <= j < a.len() implies a[j] == b[j] by {
        let high_a = (a[j] / 16) as nat;
        let high_b = (b[j] / 16) as nat;
        let low_a = (a[j] % 16) as nat;
        let low_b = (b[j] % 16) as nat;
        assert(hex_of(a)[2 * j] == hex_char(high_a));
        assert(hex_of(b)[2 * j] == hex_char(high_b));
        assert(hex_of(a)[2 * j + 1] == hex_char(low_a));
        assert(hex_of(b)[2 * j + 1] == hex_char(low_b));
        assert(hex_char(high_a) as u8 == hex_code(high_a));
        assert(hex_char(high_b) as u8 == hex_code(high_b));
        assert(hex_char(low_a) as u8 == hex_code(low_a));
        assert(hex_char(low_b) as u8 == hex_code(low_b));
        assert(high_a == high_b);
        assert(low_a == low_b);
    }
    assert(a =~= b);
}

/// A token names one access key: two keys with the same token are the same.
pub proof fn lemma_token_names_one_key(key: u64, a: Seq<char>, b: Seq<char>)
    requires
        token_text(key, a) == token_text(key, b),
    ensures
        a == b,
{
    let pa = encode_utf8(a);
    let pb = encode_utf8(b);
    lemma_hex_names_one_string(sealed(key, pa), sealed(key, pb));
    assert(sealed(key, pa).len() == pa.len() + 8);
    assert(sealed(key, pb).len() == pb.len() + 8);
    assert(pa =~= sealed(key, pa).subrange(0, pa.len() as int));
    assert(pb =~= sealed(key, pb).subrange(0, pb.len() as int));
    encode_utf8_decode_utf8(a);
    encode_utf8_decode_utf8(b);
}

/// The bytes behind a token are the UTF-8 bytes of its access key, followed
/// by the eight bytes of the seal.
proof fn lemma_body_of_token(key: u64, body: Seq<u8>, access_key: Seq<char>)
    requires
        hex_of(body) == token_text(key, access_key),
    ensures
        body.len() >= 8,
        body.subrange(0, body.len() - 8) == encode_utf8(access_key),
        valid_utf8(encode_utf8(access_key)),
{
    lemma_hex_names_one_string(body, sealed(key, encode_utf8(access_key)));
    assert(body.subrange(0, body.len() - 8) =~= encode_utf8(access_key));
    encode_utf8_valid_utf8(access_key);
}

/// Two texts with the same UTF-8 bytes are the same.
proof fn lemma_utf8_names_one_text(a: Seq<char>, b: Seq<char>)
    requires
        encode_utf8(a) == encode_utf8(b),
    ensures
        a == b,
{
    encode_utf8_decode_utf8(a);
    encode_utf8_decode_utf8(b);
}

fn nibble_text(n: u8) -> (text: &'static str)
    requires
        n < 16,
    ensures
        text@ == seq![hex_char(n as nat)],
{
    proof {
        reveal_strlit("0");
        reveal_strlit("1");
        reveal_strlit("2");
        reveal_strlit("3");
        reveal_strlit("4");
        reveal_strlit("5");
        reveal_strlit("6");
        reveal_strlit("7");
        reveal_strlit("8");
        reveal_strlit("9");
        reveal_strlit("a");
        reveal_strlit("b");
        reveal_strlit("c");
        reveal_strlit("d");
        reveal_strlit("e");
        reveal_strlit("f");
    }
    let text = match n {
        0 => "0",
        1 => "1",
        2 => "2",
        3 => "3",
        4 => "4",
        5 => "5",
        6 => "6",
        7 => "7",
        8 => "8",
        9 => "9",
        10 => "a",
        11 => "b",
        12 => "c",
        13 => "d",
        14 => "e",
        _ => "f",
    };
    assert(text@ =~= seq![hex_char(n as nat)]);
    text
}

fn nibble_of(code: u8) -> (n: Option<u8>)
    ensures
        match n {
            Some(v) => v < 16 && hex_code(v as nat) == code,
            None => forall|v: nat| v < 16 ==> hex_code(v) != code,
        },
{
    if 48 <= code && code <= 57 {
        Some(code - 48)
    } else if 97 <= code && code <= 102 {
        Some(code - 87)
    } else {
        None
    }
}

/// The hexadecimal text of `bytes`.
fn hex_text(bytes: &Vec<u8>) -> (text: String)
    ensures
        text@ == hex_of(bytes@),
{
    let mut text = String::new();
    let mut i: usize = 0;
    assert(text@ =~= hex_of(bytes@.subrange(0, 0)));
    while i < bytes.len()
        invariant
            i <= bytes.len(),
            text@ == hex_of(bytes@.subrange(0, i as int)),
        decreases bytes.len() - i,
    {
        let byte = bytes[i];
        text.append(nibble_text(byte / 16));
        text.append(nibble_text(byte % 16));
        i += 1;
        assert(text@ =~= hex_of(bytes@.subrange(0, i as int)));
    }
    assert(bytes@.subrange(0, i as int) =~= bytes@);
    text
}

/// The bytes of which `text` is the hexadecimal text, if there are any.
fn hex_bytes(text: &str) -> (bytes: Option<Vec<u8>>)
    ensures
        bytes matches Some(b) ==> text@ == hex_of(b@),
        bytes is None ==> forall|b: Seq<u8>| text@ != hex_of(b),
{
    if !text.is_ascii() {
        assert forall|b: Seq<u8>| text@ != hex_of(b) by {
            assert(is_ascii_chars(hex_of(b)));
        }
        return None;
    }
    let raw = text.as_bytes();
    proof {
        is_ascii_spec_bytes(text);
    }
    let n = raw.len();
    if n % 2 != 0 {
        return None;
    }
    let mut out: Vec<u8> = Vec::new();
    let mut i: usize = 0;
    while i < n / 2
        invariant
            n == raw@.len(),
            n == text@.len(),
            n % 2 == 0,
            i <= n / 2,
            is_ascii_chars(text@),
            forall|j: int| 0 <= j < n ==> raw@[j] == text@[j] as u8,
            out@.len() == i,
            forall|j: int|
                0 <= j < i ==> text@[2 * j] == hex_char((#[trigger] out@[j] / 16) as nat) && text@[2
                    * j + 1] == hex_char((out@[j] % 16) as nat),
        decreases n / 2 - i,
    {
        let high = nibble_of(raw[2 * i]);
        let low = nibble_of(raw[2 * i + 1]);
        match (high, low) {
            (Some(high), Some(low)) => {
                let byte: u8 = high * 16 + low;
                assert(text@[2 * i as int] == hex_char(high as nat));
                assert(text@[2 * i as int + 1] == hex_char(low as nat));
                out.push(byte);
            },
            _ => {
                assert forall|b: Seq<u8>| text@ != hex_of(b) by {
                    if text@ == hex_of(b) {
                        assert(hex_of(b)[2 * i as int] == hex_char((b[i as int] / 16) as nat));
                        assert(hex_of(b)[2 * i as int + 1] == hex_char(
                            (b[i as int] % 16) as nat,
                        ));
                    }
                }
                return None;
            },
        }
        i += 1;
    }
    assert(text@ =~= hex_of(out@));
    Some(out)
}

/// The first `count` bytes of `bytes`.
fn front(bytes: &[u8], count: usize) -> (head: Vec<u8>)
    requires
        count <= bytes@.len(),
    ensures
        head@ == bytes@.subrange(0, count as int),
{
    let mut head: Vec<u8> = Vec::new();
    let mut i: usize = 0;
    while i < count
        invariant
            i <= count,
            count <= bytes@.len(),
            head@ == bytes@.subrange(0, i as int),
        decreases count - i,
    {
        head.push(bytes[i]);
        i += 1;
        assert(head@ =~= bytes@.subrange(0, i as int));
    }
    head
}

impl TokenCodec {
    /// The key under which this codec seals.
    pub closed spec fn key(&self) -> u64 {
        self.key
    }

    /// A codec that seals with `key`.
    pub fn new(key: u64) -> (codec: TokenCodec)
        ensures
            codec.key() == key,
    {
        TokenCodec { key }
    }

    fn seal_of(&self, payload: &[u8]) -> (tag: u64)
        ensures
            tag == seal(self.key, payload@),
    {
        let mut tag: u64 = self.key;
        let mut i: usize = 0;
        assert(payload@.subrange(0, 0) =~= Seq::<u8>::empty());
        while i < payload.len()
            invariant
                i <= payload.len(),
                tag == seal(self.key, payload@.subrange(0, i as int)),
            decreases payload.len() - i,
        {
            let byte = payload[i];
            let wide: u128 = (tag as u128) * 1099511628211u128 + (byte as u128) + 1u128;
            assert(payload@.subrange(0, i + 1).drop_last() =~= payload@.subrange(0, i as int));
            tag = (wide % 0x1_0000_0000_0000_0000u128) as u64;
            i += 1;
        }
        assert(payload@.subrange(0, i as int) =~= payload@);
        tag
    }

    /// The token for `payload`.
    pub fn encode(&self, payload: &RunnerToken) -> (token: String)
        ensures
            token@ == token_text(self.key(), payload.access_key@),
    {
        let bytes = payload.access_key.as_str().as_bytes();
        let tag = self.seal_of(bytes);
        let mut body = front(bytes, bytes.len());
        assert(body@ =~= bytes@);
        body.push((tag / 0x100_0000_0000_0000) as u8);
        body.push((tag / 0x1_0000_0000_0000 % 256) as u8);
        body.push((tag / 0x100_0000_0000 % 256) as u8);
        body.push((tag / 0x1_0000_0000 % 256) as u8);
        body.push((tag / 0x100_0000 % 256) as u8);
        body.push((tag / 0x1_0000 % 256) as u8);
        body.push((tag / 0x100 % 256) as u8);
        body.push((tag % 256) as u8);
        assert(body@ =~= sealed(self.key, bytes@));
        hex_text(&body)
    }

    /// The payload of `token`. A token is accepted exactly when it is the
    /// text that `encode` writes for some access key, and that key is then
    /// the one returned. Every other text is refused in the same way,
    /// whatever is wrong with it.
    pub fn decode(&self, token: &str) -> (payload: Result<RunnerToken, ErrorMessage>)
        ensures
            payload matches Ok(p) ==> token@ == token_text(self.key(), p.access_key@),
            payload matches Err(e) ==> e == ErrorMessage::InvalidToken,
            forall|access_key: Seq<char>|
                token@ == token_text(self.key(), access_key) ==> (payload matches Ok(p)
                    && p.access_key@ == access_key),
    {
        let body = match hex_bytes(token) {
            Some(body) => body,
            None => {
                return Err(ErrorMessage::InvalidToken);
            },
        };
        if body.len() < 8 {
            proof {
                assert forall|access_key: Seq<char>|
                    token@ != token_text(self.key, access_key) by {
                    if token@ == token_text(self.key, access_key) {
                        lemma_body_of_token(self.key, body@, access_key);
                    }
                }
            }
            return Err(ErrorMessage::InvalidToken);
        }
        let head = front(&body, body.len() - 8);
        let ghost head_bytes = head@;
        let access_key = match text_of_bytes(head) {
            Some(text) => text,
            None => {
                proof {
                    assert forall|access_key: Seq<char>|
                        token@ != token_text(self.key, access_key) by {
                        if token@ == token_text(self.key, access_key) {
                            lemma_body_of_token(self.key, body@, access_key);
                        }
                    }
                }
                return Err(ErrorMessage::InvalidToken);
            },
        };
        proof {
            assert forall|other: Seq<char>|
                token@ == token_text(self.key, other) implies access_key@ == other by {
                lemma_body_of_token(self.key, body@, other);
                lemma_utf8_names_one_text(access_key@, other);
            }
        }
        let candidate = RunnerToken { access_key };
        let expected = self.encode(&candidate);
        if expected == String::from_str(token) {
            Ok(candidate)
        } else {
            Err(ErrorMessage::InvalidToken)
        }
    }
}

} // verus!
