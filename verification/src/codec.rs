//! Codec for the client-held session token.
//!
//! A `SessionToken` is the minimal projection of a backend session record:
//! the opaque session identifier and the authenticated user's id. The codec
//! maps it to and from the byte payload kept by the identity store. The
//! encoding is injective, decoding rejects every malformed payload, and both
//! directions round-trip exactly.

use vstd::prelude::*;

verus! {

/// Returned when a session token cannot be serialized: the session
/// identifier is too long for the length-prefixed wire form.
#[derive(Debug)]
pub struct TokenEncodeError;

/// Returned when stored bytes do not form a valid session token.
#[derive(Debug)]
pub struct TokenDecodeError;

/// The client-held cookie payload: the minimal projection of a backend
/// session record. The client treats it as opaque; this core constructs and
/// reads it directly.
pub struct SessionToken {
    pub session_id: Vec<u8>,
    pub user_id: u64,
}

/// Big-endian bytes of a 64-bit user id.
pub open spec fn spec_u64_bytes(x: u64) -> Seq<u8> {
    seq![
        ((x >> 56) & 0xff) as u8,
        ((x >> 48) & 0xff) as u8,
        ((x >> 40) & 0xff) as u8,
        ((x >> 32) & 0xff) as u8,
        ((x >> 24) & 0xff) as u8,
        ((x >> 16) & 0xff) as u8,
        ((x >> 8) & 0xff) as u8,
        (x & 0xff) as u8,
    ]
}

/// The 64-bit value read back from eight big-endian bytes.
pub open spec fn spec_u64_of_bytes(b: Seq<u8>) -> u64
    recommends
        b.len() == 8,
{
    ((b[0] as u64) << 56) | ((b[1] as u64) << 48) | ((b[2] as u64) << 40) | ((b[3] as u64) << 32)
        | ((b[4] as u64) << 24) | ((b[5] as u64) << 16) | ((b[6] as u64) << 8) | (b[7] as u64)
}

/// Big-endian bytes of the 16-bit session-identifier length prefix.
pub open spec fn spec_u16_bytes(x: u16) -> Seq<u8> {
    seq![((x >> 8) & 0xff) as u8, (x & 0xff) as u8]
}

/// The 16-bit value read back from two big-endian bytes.
pub open spec fn spec_u16_of_bytes(b: Seq<u8>) -> u16
    recommends
        b.len() == 2,
{
    ((b[0] as u16) << 8) | (b[1] as u16)
}

/// A session identifier fits the wire form when its length fits the 16-bit
/// length prefix.
pub open spec fn spec_token_fits(session_id: Seq<u8>) -> bool {
    session_id.len() <= 0xffff
}

/// Wire form of a token: 8 bytes of user id, 2 bytes of session-identifier
/// length, then the session identifier itself.
pub open spec fn spec_encode(session_id: Seq<u8>, user_id: u64) -> Seq<u8>
    recommends
        spec_token_fits(session_id),
{
    spec_u64_bytes(user_id) + spec_u16_bytes(session_id.len() as u16) + session_id
}

/// What decoding a payload yields: the `(session_id, user_id)` pair when the
/// bytes are exactly one well-formed wire-form token, nothing otherwise.
pub open spec fn spec_decode(b: Seq<u8>) -> Option<(Seq<u8>, u64)> {
    if b.len() < 10 {
        None
    } else {
        let n = spec_u16_of_bytes(b.subrange(8, 10)) as int;
        if b.len() == 10 + n {
            Some((b.subrange(10, b.len() as int), spec_u64_of_bytes(b.subrange(0, 8))))
        } else {
            None
        }
    }
}

proof fn lemma_u64_roundtrip(x: u64)
    ensures
        spec_u64_of_bytes(spec_u64_bytes(x)) == x,
{
    let b = spec_u64_bytes(x);
    assert(((((x >> 56) & 0xff) as u8 as u64) << 56) | ((((x >> 48) & 0xff) as u8 as u64) << 48)
        | ((((x >> 40) & 0xff) as u8 as u64) << 40) | ((((x >> 32) & 0xff) as u8 as u64) << 32)
        | ((((x >> 24) & 0xff) as u8 as u64) << 24) | ((((x >> 16) & 0xff) as u8 as u64) << 16)
        | ((((x >> 8) & 0xff) as u8 as u64) << 8) | ((x & 0xff) as u8 as u64) == x)
        by (bit_vector);
}

proof fn lemma_u64_bytes_of(b: Seq<u8>)
    requires
        b.len() == 8,
    ensures
        spec_u64_bytes(spec_u64_of_bytes(b)) =~= b,
{
    let b0 = b[0];
    let b1 = b[1];
    let b2 = b[2];
    let b3 = b[3];
    let b4 = b[4];
    let b5 = b[5];
    let b6 = b[6];
    let b7 = b[7];
    let x = spec_u64_of_bytes(b);
    assert(x == ((b0 as u64) << 56) | ((b1 as u64) << 48) | ((b2 as u64) << 40) | ((b3 as u64)
        << 32) | ((b4 as u64) << 24) | ((b5 as u64) << 16) | ((b6 as u64) << 8) | (b7 as u64));
    assert({
        let y = ((b0 as u64) << 56) | ((b1 as u64) << 48) | ((b2 as u64) << 40) | ((b3 as u64)
            << 32) | ((b4 as u64) << 24) | ((b5 as u64) << 16) | ((b6 as u64) << 8) | (b7 as u64);
        &&& ((y >> 56) & 0xff) as u8 == b0
        &&& ((y >> 48) & 0xff) as u8 == b1
        &&& ((y >> 40) & 0xff) as u8 == b2
        &&& ((y >> 32) & 0xff) as u8 == b3
        &&& ((y >> 24) & 0xff) as u8 == b4
        &&& ((y >> 16) & 0xff) as u8 == b5
        &&& ((y >> 8) & 0xff) as u8 == b6
        &&& (y & 0xff) as u8 == b7
    }) by (bit_vector);
}

proof fn lemma_u16_roundtrip(x: u16)
    ensures
        spec_u16_of_bytes(spec_u16_bytes(x)) == x,
{
    assert(((((x >> 8) & 0xff) as u8 as u16) << 8) | ((x & 0xff) as u8 as u16) == x)
        by (bit_vector);
}

proof fn lemma_u16_bytes_of(b: Seq<u8>)
    requires
        b.len() == 2,
    ensures
        spec_u16_bytes(spec_u16_of_bytes(b)) =~= b,
{
    let b0 = b[0];
    let b1 = b[1];
    assert({
        let y = ((b0 as u16) << 8) | (b1 as u16);
        &&& ((y >> 8) & 0xff) as u8 == b0
        &&& (y & 0xff) as u8 == b1
    }) by (bit_vector);
}

/// Law: decoding an encoded token yields exactly the token that was encoded,
/// for every token whose session identifier fits the wire form.
pub proof fn lemma_decode_of_encode(session_id: Seq<u8>, user_id: u64)
    requires
        spec_token_fits(session_id),
    ensures
        spec_decode(spec_encode(session_id, user_id)) == Some((session_id, user_id)),
{
    let e = spec_encode(session_id, user_id);
    assert(e.len() == 10 + session_id.len());
    assert(e.subrange(0, 8) =~= spec_u64_bytes(user_id));
    assert(e.subrange(8, 10) =~= spec_u16_bytes(session_id.len() as u16));
    assert(e.subrange(10, e.len() as int) =~= session_id);
    lemma_u64_roundtrip(user_id);
    lemma_u16_roundtrip(session_id.len() as u16);
}

/// Law: every byte payload the decoder accepts is reproduced exactly by
/// encoding the decoded token, so the encoding is a bijection between
/// well-formed tokens and accepted payloads.
pub proof fn lemma_encode_of_decode(b: Seq<u8>)
    ensures
        spec_decode(b) matches Some(t) ==> spec_token_fits(t.0) && spec_encode(t.0, t.1) == b,
{
    if spec_decode(b) is Some {
        let t = spec_decode(b)->Some_0;
        lemma_u64_bytes_of(b.subrange(0, 8));
        lemma_u16_bytes_of(b.subrange(8, 10));
        assert(t.0.len() == b.len() - 10);
        assert(t.0.len() as u16 == spec_u16_of_bytes(b.subrange(8, 10)));
        assert(spec_encode(t.0, t.1) =~= b);
    }
}

impl SessionToken {
    /// Serializes the token into the byte payload held by the identity
    /// store. Fails, recoverably, exactly when the session identifier is too
    /// long for the 16-bit length prefix.
    pub fn encode(&self) -> (r: Result<Vec<u8>, TokenEncodeError>)
        ensures
            spec_token_fits(self.session_id@) ==> (r matches Ok(v) && v@ == spec_encode(
                self.session_id@,
                self.user_id,
            )),
            !spec_token_fits(self.session_id@) ==> r is Err,
    {
        if self.session_id.len() > 0xffff {
            return Err(TokenEncodeError);
        }
        let n: u16 = self.session_id.len() as u16;
        let x = self.user_id;
        proof {
            assert((x >> 56) & 0xff < 256 && (x >> 48) & 0xff < 256 && (x >> 40) & 0xff < 256 && (x
                >> 32) & 0xff < 256 && (x >> 24) & 0xff < 256 && (x >> 16) & 0xff < 256 && (x >> 8)
                & 0xff < 256 && x & 0xff < 256) by (bit_vector);
            assert((n >> 8) & 0xff < 256 && n & 0xff < 256) by (bit_vector);
        }
        let mut v: Vec<u8> = Vec::new();
        v.push(((x >> 56) & 0xff) as u8);
        v.push(((x >> 48) & 0xff) as u8);
        v.push(((x >> 40) & 0xff) as u8);
        v.push(((x >> 32) & 0xff) as u8);
        v.push(((x >> 24) & 0xff) as u8);
        v.push(((x >> 16) & 0xff) as u8);
        v.push(((x >> 8) & 0xff) as u8);
        v.push((x & 0xff) as u8);
        v.push(((n >> 8) & 0xff) as u8);
        v.push((n & 0xff) as u8);
        assert(v@ =~= spec_u64_bytes(x) + spec_u16_bytes(n));
        let mut i: usize = 0;
        while i < self.session_id.len()
            invariant
                i <= self.session_id@.len(),
                v@ == spec_u64_bytes(x) + spec_u16_bytes(n) + self.session_id@.subrange(
                    0,
                    i as int,
                ),
            decreases self.session_id@.len() - i,
        {
            v.push(self.session_id[i]);
            proof {
                assert(self.session_id@.subrange(0, i + 1) =~= self.session_id@.subrange(
                    0,
                    i as int,
                ).push(self.session_id@[i as int]));
                assert(v@ =~= spec_u64_bytes(x) + spec_u16_bytes(n) + self.session_id@.subrange(
                    0,
                    i + 1,
                ));
            }
            i = i + 1;
        }
        proof {
            assert(self.session_id@.subrange(0, self.session_id@.len() as int)
                =~= self.session_id@);
            assert(v@ == spec_encode(self.session_id@, self.user_id));
        }
        Ok(v)
    }

    /// Deserializes a stored payload. Accepts exactly the payloads that are
    /// the wire form of some token, and returns that token; every corrupted
    /// or truncated payload is rejected with a recoverable error.
    pub fn decode(bytes: &Vec<u8>) -> (r: Result<SessionToken, TokenDecodeError>)
        ensures
            spec_decode(bytes@) matches Some(t) ==> (r matches Ok(tok) && tok.session_id@ == t.0
                && tok.user_id == t.1),
            spec_decode(bytes@) is None ==> r is Err,
    {
        if bytes.len() < 10 {
            return Err(TokenDecodeError);
        }
        let x: u64 = ((bytes[0] as u64) << 56) | ((bytes[1] as u64) << 48) | ((bytes[2] as u64)
            << 40) | ((bytes[3] as u64) << 32) | ((bytes[4] as u64) << 24) | ((bytes[5] as u64)
            << 16) | ((bytes[6] as u64) << 8) | (bytes[7] as u64);
        proof {
            let h = bytes@.subrange(0, 8);
            assert(h[0] == bytes@[0] && h[1] == bytes@[1] && h[2] == bytes@[2] && h[3] == bytes@[3]
                && h[4] == bytes@[4] && h[5] == bytes@[5] && h[6] == bytes@[6] && h[7] == bytes@[7]);
            assert(x == spec_u64_of_bytes(h));
        }
        let n16: u16 = ((bytes[8] as u16) << 8) | (bytes[9] as u16);
        proof {
            let l = bytes@.subrange(8, 10);
            assert(l[0] == bytes@[8] && l[1] == bytes@[9]);
            assert(n16 == spec_u16_of_bytes(l));
        }
        let n: usize = n16 as usize;
        if bytes.len() != 10 + n {
            return Err(TokenDecodeError);
        }
        let mut sid: Vec<u8> = Vec::new();
        let mut i: usize = 10;
        while i < bytes.len()
            invariant
                10 <= i <= bytes@.len(),
                sid@ == bytes@.subrange(10, i as int),
            decreases bytes@.len() - i,
        {
            sid.push(bytes[i]);
            proof {
                assert(bytes@.subrange(10, i + 1) =~= bytes@.subrange(10, i as int).push(
                    bytes@[i as int],
                ));
            }
            i = i + 1;
        }
        Ok(SessionToken { session_id: sid, user_id: x })
    }
}

} // verus!
