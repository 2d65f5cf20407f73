//! Framed transport encoding: every message on the wire is
//! `<len>:<payload>`, where `<len>` is the ASCII decimal byte length of the
//! payload. Encoding and decoding are pure functions over byte sequences; the
//! caller owns the socket and feeds received bytes in.

use vstd::prelude::*;

use crate::digits::DIGIT_ZERO;
use crate::digits::all_dec_digits;
use crate::digits::dec_digits;
use crate::digits::dec_value;
use crate::digits::is_dec_digit;
use crate::digits::lemma_dec_digits_value;
use crate::digits::lemma_dec_digits_wf;
use crate::digits::lemma_dec_value_push;
use crate::digits::u64_to_dec;
use crate::errors::TransportError;

verus! {

/// ASCII code of `:`, the separator between length prefix and payload.
pub const COLON: u8 = 58;

/// The wire form of a payload: its decimal byte length, a colon, the payload.
pub open spec fn frame_bytes(payload: Seq<u8>) -> Seq<u8> {
    dec_digits(payload.len() as nat) + seq![COLON] + payload
}

/// The longest prefix of `b` that consists of decimal digits.
pub open spec fn digits_prefix(b: Seq<u8>) -> Seq<u8>
    decreases b.len(),
{
    if b.len() == 0 || !is_dec_digit(b[0]) {
        Seq::empty()
    } else {
        seq![b[0]] + digits_prefix(b.drop_first())
    }
}

/// What the bytes received so far say: a full frame (its payload and how many
/// bytes of the buffer it spans), too few bytes to tell, or a buffer that can
/// never become a frame. A missing colon, a non-decimal prefix, and an empty
/// payload are malformed.
#[verifier::ext_equal]
pub enum FrameParse {
    Complete { payload: Seq<u8>, consumed: int },
    Incomplete,
    Malformed,
}

/// Parse the frame at the front of `b`.
pub open spec fn frame_parse(b: Seq<u8>) -> FrameParse {
    let d = digits_prefix(b);
    let i = d.len() as int;
    if i == b.len() {
        FrameParse::Incomplete
    } else if i == 0 || b[i] != COLON {
        FrameParse::Malformed
    } else if dec_value(d) == 0 {
        FrameParse::Malformed
    } else if b.len() - (i + 1) < dec_value(d) {
        FrameParse::Incomplete
    } else {
        FrameParse::Complete {
            payload: b.subrange(i + 1, i + 1 + dec_value(d) as int),
            consumed: i + 1 + dec_value(d) as int,
        }
    }
}

/// `digits_prefix(b)` is the part of `b` before the first non-digit byte.
pub proof fn lemma_digits_prefix(b: Seq<u8>)
    ensures
        digits_prefix(b).len() <= b.len(),
        digits_prefix(b) == b.subrange(0, digits_prefix(b).len() as int),
        all_dec_digits(digits_prefix(b)),
        digits_prefix(b).len() == b.len() || !is_dec_digit(b[digits_prefix(b).len() as int]),
    decreases b.len(),
{
    if b.len() == 0 || !is_dec_digit(b[0]) {
        assert(digits_prefix(b) =~= b.subrange(0, 0));
    } else {
        lemma_digits_prefix(b.drop_first());
        let t = digits_prefix(b.drop_first());
        assert(digits_prefix(b) =~= b.subrange(0, t.len() + 1 as int)) by {
            assert forall|j: int| 0 <= j < t.len() + 1 implies (seq![b[0]] + t)[j] == b[j] by {
                if j > 0 {
                    assert(t[j - 1] == b.drop_first().subrange(0, t.len() as int)[j - 1]);
                }
            }
        }
        assert(all_dec_digits(digits_prefix(b))) by {
            assert forall|j: int| 0 <= j < t.len() + 1 implies is_dec_digit(
                #[trigger] digits_prefix(b)[j],
            ) by {
                if j > 0 {
                    assert(is_dec_digit(t[j - 1]));
                }
            }
        }
        if t.len() + 1 < b.len() {
            assert(b[t.len() + 1 as int] == b.drop_first()[t.len() as int]);
        }
    }
}

/// Encode `payload` as one frame.
pub fn encode_frame(payload: &[u8]) -> (r: Vec<u8>)
    ensures
        r@ == frame_bytes(payload@),
{
    let mut out = u64_to_dec(payload.len() as u64);
    out.push(COLON);
    let mut i: usize = 0;
    while i < payload.len()
        invariant
            i <= payload.len(),
            out@ == dec_digits(payload@.len() as nat) + seq![COLON] + payload@.subrange(
                0,
                i as int,
            ),
        decreases payload.len() - i,
    {
        out.push(payload[i]);
        i = i + 1;
        assert(out@ =~= dec_digits(payload@.len() as nat) + seq![COLON] + payload@.subrange(
            0,
            i as int,
        ));
    }
    assert(payload@.subrange(0, payload@.len() as int) =~= payload@);
    out
}

/// What the decoder returns for the bytes received so far.
pub enum FrameDecode {
    Complete { payload: Vec<u8>, consumed: usize },
    Incomplete,
    Malformed,
}

/// Decode the frame at the front of `buf`, if the bytes for one have arrived.
pub fn decode_frame(buf: &[u8]) -> (r: FrameDecode)
    ensures
        match r {
            FrameDecode::Complete { payload, consumed } => frame_parse(buf@)
                == (FrameParse::Complete { payload: payload@, consumed: consumed as int }),
            FrameDecode::Incomplete => frame_parse(buf@) is Incomplete,
            FrameDecode::Malformed => frame_parse(buf@) is Malformed,
        },
{
    let n = buf.len();
    proof {
        lemma_digits_prefix(buf@);
    }
    let ghost dp = digits_prefix(buf@);
    let mut i: usize = 0;
    let mut val: u64 = 0;
    let mut big: bool = false;
    while i < n && DIGIT_ZERO <= buf[i] && buf[i] <= DIGIT_ZERO + 9
        invariant
            n == buf@.len(),
            dp == digits_prefix(buf@),
            dp == buf@.subrange(0, dp.len() as int),
            all_dec_digits(dp),
            dp.len() == n || !is_dec_digit(buf@[dp.len() as int]),
            i <= dp.len(),
            !big ==> val == dec_value(buf@.subrange(0, i as int)),
            big ==> dec_value(buf@.subrange(0, i as int)) > u64::MAX,
        decreases n - i,
    {
        proof {
            if i == dp.len() {
                assert(is_dec_digit(buf@[i as int]));
            }
            assert(buf@.subrange(0, i + 1) =~= buf@.subrange(0, i as int).push(buf@[i as int]));
            lemma_dec_value_push(buf@.subrange(0, i as int), buf@[i as int]);
        }
        let d = (buf[i] - DIGIT_ZERO) as u64;
        if !big {
            if val > (u64::MAX - d) / 10 {
                big = true;
                proof {
                    vstd::arithmetic::div_mod::lemma_fundamental_div_mod(
                        (u64::MAX - d) as int,
                        10,
                    );
                }
            } else {
                proof {
                    vstd::arithmetic::div_mod::lemma_fundamental_div_mod(
                        (u64::MAX - d) as int,
                        10,
                    );
                }
                val = val * 10 + d;
            }
        }
        i = i + 1;
    }
    proof {
        if i < dp.len() {
            assert(is_dec_digit(dp[i as int]));
            assert(dp[i as int] == buf@[i as int]);
        }
        assert(i == dp.len());
        assert(buf@.subrange(0, i as int) == dp);
    }
    if i == n {
        return FrameDecode::Incomplete;
    }
    if i == 0 || buf[i] != COLON {
        return FrameDecode::Malformed;
    }
    if !big && val == 0 {
        return FrameDecode::Malformed;
    }
    let avail = n - i - 1;
    if big || (avail as u64) < val {
        return FrameDecode::Incomplete;
    }
    let len = val as usize;
    let start = i + 1;
    let mut payload: Vec<u8> = Vec::new();
    let mut j: usize = start;
    while j < start + len
        invariant
            n == buf@.len(),
            start + len <= n,
            start <= j <= start + len,
            payload@ == buf@.subrange(start as int, j as int),
        decreases start + len - j,
    {
        payload.push(buf[j]);
        j = j + 1;
        assert(payload@ =~= buf@.subrange(start as int, j as int));
    }
    FrameDecode::Complete { payload, consumed: start + len }
}

/// Framing round-trip: decoding an encoded frame yields the payload back,
/// consumes the whole frame, and the prefix states the payload's length.
pub proof fn lemma_frame_roundtrip(payload: Seq<u8>)
    requires
        payload.len() >= 1,
    ensures
        frame_parse(frame_bytes(payload)) == (FrameParse::Complete {
            payload: payload,
            consumed: frame_bytes(payload).len() as int,
        }),
        frame_bytes(payload).subrange(0, dec_digits(payload.len() as nat).len() as int)
            == dec_digits(payload.len() as nat),
{
    let d = dec_digits(payload.len() as nat);
    let b = frame_bytes(payload);
    lemma_dec_digits_wf(payload.len() as nat);
    lemma_dec_digits_value(payload.len() as nat);
    lemma_digits_prefix_concat(d, seq![COLON] + payload);
    assert(b =~= d + (seq![COLON] + payload));
    assert(digits_prefix(seq![COLON] + payload) =~= Seq::empty());
    assert(digits_prefix(b) =~= d);
    let i = d.len() as int;
    assert(b[i] == (seq![COLON] + payload)[0]);
    assert(b.subrange(i + 1, i + 1 + payload.len() as int) =~= payload);
    assert(b.subrange(0, i) =~= d);
}

/// Digits at the front of a concatenation: the digit prefix of `d + rest` is
/// `d` followed by the digit prefix of `rest`, when `d` is all digits.
pub proof fn lemma_digits_prefix_concat(d: Seq<u8>, rest: Seq<u8>)
    requires
        all_dec_digits(d),
    ensures
        digits_prefix(d + rest) == d + digits_prefix(rest),
    decreases d.len(),
{
    if d.len() == 0 {
        assert(d + rest =~= rest);
        assert(d + digits_prefix(rest) =~= digits_prefix(rest));
    } else {
        assert(is_dec_digit(d[0]));
        assert((d + rest)[0] == d[0]);
        lemma_digits_prefix_concat(d.drop_first(), rest);
        assert((d + rest).drop_first() =~= d.drop_first() + rest);
        assert(digits_prefix(d + rest) =~= seq![d[0]] + (d.drop_first() + digits_prefix(rest)));
        assert(seq![d[0]] + (d.drop_first() + digits_prefix(rest)) =~= d + digits_prefix(rest));
    }
}

/// Decode the frame at the front of `buf` when no more bytes will arrive: a
/// frame whose declared length exceeds the body it was given before the end
/// of input is malformed, exactly as a buffer that never parses.
pub fn decode_frame_at_eof(buf: &[u8]) -> (r: Result<(Vec<u8>, usize), TransportError>)
    ensures
        match r {
            Ok((payload, consumed)) => frame_parse(buf@) == (FrameParse::Complete {
                payload: payload@,
                consumed: consumed as int,
            }),
            Err(e) => e is Malformed && !(frame_parse(buf@) is Complete),
        },
{
    match decode_frame(buf) {
        FrameDecode::Complete { payload, consumed } => Ok((payload, consumed)),
        FrameDecode::Incomplete => Err(TransportError::Malformed),
        FrameDecode::Malformed => Err(TransportError::Malformed),
    }
}

} // verus!
