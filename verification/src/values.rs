use vstd::arithmetic::power2::{
    lemma2_to64, lemma2_to64_rest, lemma_pow2_adds, lemma_pow2_strictly_increases, pow2,
};
use vstd::prelude::*;

use crate::DecodeError;

verus! {

/// One decodable production of the binary grammar.
///
/// `spec_decode` is the mathematical statement of the production: a partial
/// function from a byte sequence and a start position to the decoded value
/// (as its deep view) and the position one past the bytes it consumed.
/// `decode` is the executable decoder, proved to agree with `spec_decode`
/// exactly: it succeeds if and only if the spec succeeds, with the same
/// value and the same end position.
pub trait Decode: Sized + DeepView {
    spec fn spec_decode(input: Seq<u8>, pos: int) -> Option<(Self::V, int)>;

    fn decode(input: &[u8], pos: usize) -> (r: Result<(Self, usize), DecodeError>)
        requires
            pos <= input@.len(),
        ensures
            match r {
                Ok(vp) => {
                    &&& pos <= vp.1 <= input@.len()
                    &&& Self::spec_decode(input@, pos as int) == Some((vp.0.deep_view(), vp.1 as int))
                },
                Err(e) => {
                    &&& Self::spec_decode(input@, pos as int) is None
                    &&& e == DecodeError::MalformedEncoding
                },
            },
    ;

    /// A successful decode never moves the cursor backwards and never
    /// lands beyond the end of the input.
    proof fn lemma_spec_decode_bound(input: Seq<u8>, pos: int)
        requires
            0 <= pos <= input.len(),
        ensures
            Self::spec_decode(input, pos) matches Some(vp) ==> pos <= vp.1 <= input.len(),
    ;
}

/// Pushing onto a vector extends its deep view by the element's deep view.
pub proof fn lemma_deep_view_push<T: DeepView>(v: Vec<T>, w: Vec<T>, x: T)
    requires
        w@ == v@.push(x),
    ensures
        w.deep_view() == v.deep_view().push(x.deep_view()),
{
    assert(w.deep_view() =~= v.deep_view().push(x.deep_view()));
}

// ---------------------------------------------------------------------------
// LEB128 variable-length integers
// ---------------------------------------------------------------------------
/// Unsigned LEB128 with `bits` value bits left to fill: each byte carries
/// seven low-order value bits, least significant group first, and its high
/// bit set exactly when another group follows.  A final group whose value
/// needs more than the remaining `bits` is rejected, as is a continuation
/// where seven or fewer bits remain; so a 32-bit read spans at most five
/// bytes and a 64-bit read at most ten.
pub open spec fn spec_leb_unsigned(input: Seq<u8>, pos: int, bits: nat) -> Option<(nat, int)>
    decreases bits,
{
    if bits == 0 || pos < 0 || pos >= input.len() {
        None
    } else {
        let b = input[pos];
        if b < 0x80 {
            if (b as nat) < pow2(bits) {
                Some(((b as nat), pos + 1))
            } else {
                None
            }
        } else if bits <= 7 {
            None
        } else {
            match spec_leb_unsigned(input, pos + 1, (bits - 7) as nat) {
                Some(vp) => Some(((((b - 0x80) + vp.0 * 128) as nat), vp.1)),
                None => None,
            }
        }
    }
}

/// A successful unsigned read stays within the input, always makes
/// progress, spans at most one byte per seven value bits, and yields a
/// value below `pow2(bits)`.
pub proof fn lemma_leb_unsigned_bound(input: Seq<u8>, pos: int, bits: nat)
    ensures
        spec_leb_unsigned(input, pos, bits) matches Some(vp) ==> {
            &&& vp.0 < pow2(bits)
            &&& pos < vp.1 <= input.len()
            &&& vp.1 <= pos + (bits + 6) / 7
        },
    decreases bits,
{
    if bits > 0 && 0 <= pos < input.len() {
        let b = input[pos];
        if b < 0x80 {
        } else if bits > 7 {
            lemma_leb_unsigned_bound(input, pos + 1, (bits - 7) as nat);
            if let Some(vp) = spec_leb_unsigned(input, pos + 1, (bits - 7) as nat) {
                lemma_pow2_adds((bits - 7) as nat, 7);
                lemma2_to64();
                assert(vp.0 * 128 <= (pow2((bits - 7) as nat) - 1) * 128);
            }
        }
    }
}

/// Signed LEB128 with `bits` value bits left to fill: groups as in the
/// unsigned form, but the final group is interpreted as a seven-bit two's
/// complement value, which sign-extends the result.
pub open spec fn spec_leb_signed(input: Seq<u8>, pos: int, bits: nat) -> Option<(int, int)>
    decreases bits,
{
    if bits == 0 || pos < 0 || pos >= input.len() {
        None
    } else {
        let b = input[pos];
        if b < 0x80 {
            let sv = if b >= 0x40 {
                b - 0x80
            } else {
                b as int
            };
            if -pow2((bits - 1) as nat) <= sv < pow2((bits - 1) as nat) {
                Some((sv, pos + 1))
            } else {
                None
            }
        } else if bits <= 7 {
            None
        } else {
            match spec_leb_signed(input, pos + 1, (bits - 7) as nat) {
                Some(vp) => Some(((b - 0x80) + vp.0 * 128, vp.1)),
                None => None,
            }
        }
    }
}

/// A successful signed read stays within the input, always makes progress,
/// spans at most one byte per seven value bits, and yields a value in the
/// two's complement range of `bits` bits.
pub proof fn lemma_leb_signed_bound(input: Seq<u8>, pos: int, bits: nat)
    ensures
        spec_leb_signed(input, pos, bits) matches Some(vp) ==> {
            &&& -pow2((bits - 1) as nat) <= vp.0 < pow2((bits - 1) as nat)
            &&& pos < vp.1 <= input.len()
            &&& vp.1 <= pos + (bits + 6) / 7
        },
    decreases bits,
{
    if bits > 0 && 0 <= pos < input.len() {
        let b = input[pos];
        if b < 0x80 {
        } else if bits > 7 {
            lemma_leb_signed_bound(input, pos + 1, (bits - 7) as nat);
            if let Some(vp) = spec_leb_signed(input, pos + 1, (bits - 7) as nat) {
                lemma_pow2_adds((bits - 8) as nat, 7);
                lemma2_to64();
                assert((-pow2((bits - 8) as nat)) * 128 <= vp.0 * 128 <= (pow2((bits - 8) as nat)
                    - 1) * 128);
            }
        }
    }
}

/// `pow2` of a count below seven, as an executable value.
fn small_pow2(bits: u32) -> (r: u64)
    requires
        bits < 7,
    ensures
        r == pow2(bits as nat),
{
    proof {
        lemma2_to64();
    }
    if bits == 0 {
        1
    } else if bits == 1 {
        2
    } else if bits == 2 {
        4
    } else if bits == 3 {
        8
    } else if bits == 4 {
        16
    } else if bits == 5 {
        32
    } else {
        64
    }
}

/// Reads one unsigned LEB128 value of at most `bits` value bits.
fn decode_leb_unsigned(input: &[u8], pos: usize, bits: u32) -> (r: Result<
    (u64, usize),
    DecodeError,
>)
    requires
        pos <= input@.len(),
        1 <= bits <= 64,
    ensures
        match r {
            Ok(vp) => {
                &&& pos < vp.1 <= input@.len()
                &&& spec_leb_unsigned(input@, pos as int, bits as nat) == Some(
                    (vp.0 as nat, vp.1 as int),
                )
            },
            Err(e) => {
                &&& spec_leb_unsigned(input@, pos as int, bits as nat) is None
                &&& e == DecodeError::MalformedEncoding
            },
        },
    decreases bits,
{
    if pos >= input.len() {
        return Err(DecodeError::MalformedEncoding);
    }
    let b = input[pos];
    if b < 0x80 {
        if bits >= 7 {
            proof {
                lemma2_to64();
                if bits > 7 {
                    lemma_pow2_strictly_increases(7, bits as nat);
                }
            }
            Ok(((b as u64), pos + 1))
        } else {
            let limit = small_pow2(bits);
            if (b as u64) < limit {
                Ok(((b as u64), pos + 1))
            } else {
                Err(DecodeError::MalformedEncoding)
            }
        }
    } else if bits <= 7 {
        Err(DecodeError::MalformedEncoding)
    } else {
        match decode_leb_unsigned(input, pos + 1, bits - 7) {
            Ok(vp) => {
                proof {
                    lemma_leb_unsigned_bound(input@, pos + 1 as int, (bits - 7) as nat);
                    lemma_pow2_adds((bits - 7) as nat, 7);
                    lemma2_to64();
                    if bits < 64 {
                        lemma_pow2_strictly_increases(bits as nat, 64);
                    }
                    assert(vp.0 * 128 <= (pow2((bits - 7) as nat) - 1) * 128);
                }
                Ok((((b - 0x80) as u64 + vp.0 * 128), vp.1))
            },
            Err(e) => Err(e),
        }
    }
}

/// Reads one signed LEB128 value of at most `bits` value bits.
fn decode_leb_signed(input: &[u8], pos: usize, bits: u32) -> (r: Result<(i64, usize), DecodeError>)
    requires
        pos <= input@.len(),
        1 <= bits <= 64,
    ensures
        match r {
            Ok(vp) => {
                &&& pos < vp.1 <= input@.len()
                &&& spec_leb_signed(input@, pos as int, bits as nat) == Some(
                    (vp.0 as int, vp.1 as int),
                )
            },
            Err(e) => {
                &&& spec_leb_signed(input@, pos as int, bits as nat) is None
                &&& e == DecodeError::MalformedEncoding
            },
        },
    decreases bits,
{
    if pos >= input.len() {
        return Err(DecodeError::MalformedEncoding);
    }
    let b = input[pos];
    if b < 0x80 {
        let sv: i64 = if b >= 0x40 {
            (b as i64) - 128
        } else {
            b as i64
        };
        if bits >= 7 {
            proof {
                lemma2_to64();
                if bits > 7 {
                    lemma_pow2_strictly_increases(6, (bits - 1) as nat);
                }
            }
            Ok((sv, pos + 1))
        } else {
            let limit = small_pow2(bits - 1);
            proof {
                lemma2_to64();
                lemma_pow2_strictly_increases((bits - 1) as nat, 7);
            }
            if -(limit as i64) <= sv && sv < limit as i64 {
                Ok((sv, pos + 1))
            } else {
                Err(DecodeError::MalformedEncoding)
            }
        }
    } else if bits <= 7 {
        Err(DecodeError::MalformedEncoding)
    } else {
        match decode_leb_signed(input, pos + 1, bits - 7) {
            Ok(vp) => {
                proof {
                    lemma_leb_signed_bound(input@, pos + 1 as int, (bits - 7) as nat);
                    lemma_pow2_adds((bits - 8) as nat, 7);
                    lemma2_to64();
                    lemma2_to64_rest();
                    if bits < 64 {
                        lemma_pow2_strictly_increases((bits - 1) as nat, 63);
                    }
                    assert((-pow2((bits - 8) as nat)) * 128 <= vp.0 * 128 <= (pow2((bits - 8) as nat)
                        - 1) * 128);
                }
                Ok((((b - 0x80) as i64 + vp.0 * 128), vp.1))
            },
            Err(e) => Err(e),
        }
    }
}

// ---------------------------------------------------------------------------
// Decode instances for the primitive integers
// ---------------------------------------------------------------------------
impl Decode for u8 {
    open spec fn spec_decode(input: Seq<u8>, pos: int) -> Option<(u8, int)> {
        if 0 <= pos < input.len() {
            Some((input[pos], pos + 1))
        } else {
            None
        }
    }

    fn decode(input: &[u8], pos: usize) -> (r: Result<(Self, usize), DecodeError>) {
        if pos < input.len() {
            Ok((input[pos], pos + 1))
        } else {
            Err(DecodeError::MalformedEncoding)
        }
    }

    proof fn lemma_spec_decode_bound(input: Seq<u8>, pos: int) {
    }
}

/// The unsigned 32-bit decoder consumes at least one and at most five
/// bytes, and never reads past the end of the input: no encoding that
/// needs more than five groups is accepted.
pub proof fn lemma_u32_decode_bounds(input: Seq<u8>, pos: int)
    ensures
        u32::spec_decode(input, pos) matches Some(vp) ==> {
            &&& pos < vp.1 <= pos + 5
            &&& vp.1 <= input.len()
        },
{
    lemma_leb_unsigned_bound(input, pos, 32);
}

impl Decode for u32 {
    open spec fn spec_decode(input: Seq<u8>, pos: int) -> Option<(u32, int)> {
        match spec_leb_unsigned(input, pos, 32) {
            Some(vp) => Some(((vp.0 as u32), vp.1)),
            None => None,
        }
    }

    fn decode(input: &[u8], pos: usize) -> (r: Result<(Self, usize), DecodeError>) {
        match decode_leb_unsigned(input, pos, 32) {
            Ok(vp) => {
                proof {
                    lemma_leb_unsigned_bound(input@, pos as int, 32);
                    lemma2_to64();
                }
                Ok(((vp.0 as u32), vp.1))
            },
            Err(e) => Err(e),
        }
    }

    proof fn lemma_spec_decode_bound(input: Seq<u8>, pos: int) {
        lemma_leb_unsigned_bound(input, pos, 32);
    }
}

impl Decode for u64 {
    open spec fn spec_decode(input: Seq<u8>, pos: int) -> Option<(u64, int)> {
        match spec_leb_unsigned(input, pos, 64) {
            Some(vp) => Some(((vp.0 as u64), vp.1)),
            None => None,
        }
    }

    fn decode(input: &[u8], pos: usize) -> (r: Result<(Self, usize), DecodeError>) {
        match decode_leb_unsigned(input, pos, 64) {
            Ok(vp) => {
                proof {
                    lemma_leb_unsigned_bound(input@, pos as int, 64);
                    lemma2_to64();
                }
                Ok((vp.0, vp.1))
            },
            Err(e) => Err(e),
        }
    }

    proof fn lemma_spec_decode_bound(input: Seq<u8>, pos: int) {
        lemma_leb_unsigned_bound(input, pos, 64);
    }
}

impl Decode for i32 {
    open spec fn spec_decode(input: Seq<u8>, pos: int) -> Option<(i32, int)> {
        match spec_leb_signed(input, pos, 32) {
            Some(vp) => Some(((vp.0 as i32), vp.1)),
            None => None,
        }
    }

    fn decode(input: &[u8], pos: usize) -> (r: Result<(Self, usize), DecodeError>) {
        match decode_leb_signed(input, pos, 32) {
            Ok(vp) => {
                proof {
                    lemma_leb_signed_bound(input@, pos as int, 32);
                    lemma2_to64();
                }
                Ok(((vp.0 as i32), vp.1))
            },
            Err(e) => Err(e),
        }
    }

    proof fn lemma_spec_decode_bound(input: Seq<u8>, pos: int) {
        lemma_leb_signed_bound(input, pos, 32);
    }
}

impl Decode for i64 {
    open spec fn spec_decode(input: Seq<u8>, pos: int) -> Option<(i64, int)> {
        match spec_leb_signed(input, pos, 64) {
            Some(vp) => Some(((vp.0 as i64), vp.1)),
            None => None,
        }
    }

    fn decode(input: &[u8], pos: usize) -> (r: Result<(Self, usize), DecodeError>) {
        match decode_leb_signed(input, pos, 64) {
            Ok(vp) => {
                proof {
                    lemma_leb_signed_bound(input@, pos as int, 64);
                    lemma2_to64();
                }
                Ok((vp.0, vp.1))
            },
            Err(e) => Err(e),
        }
    }

    proof fn lemma_spec_decode_bound(input: Seq<u8>, pos: int) {
        lemma_leb_signed_bound(input, pos, 64);
    }
}

// ---------------------------------------------------------------------------
// Fixed-width little-endian reads (the bit patterns of the float constants)
// ---------------------------------------------------------------------------
/// Four bytes, little endian, as the 32 bits they spell.
pub open spec fn spec_le_bits32(input: Seq<u8>, pos: int) -> Option<(u32, int)> {
    if 0 <= pos && pos + 4 <= input.len() {
        Some(
            (
                ((input[pos] + input[pos + 1] * 0x100 + input[pos + 2] * 0x10000 + input[pos + 3]
                    * 0x1000000) as u32),
                pos + 4,
            ),
        )
    } else {
        None
    }
}

/// Eight bytes, little endian, as the 64 bits they spell.
pub open spec fn spec_le_bits64(input: Seq<u8>, pos: int) -> Option<(u64, int)> {
    if 0 <= pos && pos + 8 <= input.len() {
        Some(
            (
                ((input[pos] + input[pos + 1] * 0x100 + input[pos + 2] * 0x10000 + input[pos + 3]
                    * 0x1000000 + input[pos + 4] * 0x100000000 + input[pos + 5] * 0x10000000000
                    + input[pos + 6] * 0x1000000000000 + input[pos + 7]
                    * 0x100000000000000) as u64),
                pos + 8,
            ),
        )
    } else {
        None
    }
}

/// Reads the four-byte little-endian bit pattern of a 32-bit float.
pub fn decode_le_bits32(input: &[u8], pos: usize) -> (r: Result<(u32, usize), DecodeError>)
    requires
        pos <= input@.len(),
    ensures
        match r {
            Ok(vp) => {
                &&& pos < vp.1 <= input@.len()
                &&& spec_le_bits32(input@, pos as int) == Some((vp.0, vp.1 as int))
            },
            Err(e) => {
                &&& spec_le_bits32(input@, pos as int) is None
                &&& e == DecodeError::MalformedEncoding
            },
        },
{
    if input.len() - pos >= 4 {
        let v = input[pos] as u32 + input[pos + 1] as u32 * 0x100 + input[pos + 2] as u32 * 0x10000
            + input[pos + 3] as u32 * 0x1000000;
        Ok((v, pos + 4))
    } else {
        Err(DecodeError::MalformedEncoding)
    }
}

/// Reads the eight-byte little-endian bit pattern of a 64-bit float.
pub fn decode_le_bits64(input: &[u8], pos: usize) -> (r: Result<(u64, usize), DecodeError>)
    requires
        pos <= input@.len(),
    ensures
        match r {
            Ok(vp) => {
                &&& pos < vp.1 <= input@.len()
                &&& spec_le_bits64(input@, pos as int) == Some((vp.0, vp.1 as int))
            },
            Err(e) => {
                &&& spec_le_bits64(input@, pos as int) is None
                &&& e == DecodeError::MalformedEncoding
            },
        },
{
    if input.len() - pos >= 8 {
        let v = input[pos] as u64 + input[pos + 1] as u64 * 0x100 + input[pos + 2] as u64 * 0x10000
            + input[pos + 3] as u64 * 0x1000000 + input[pos + 4] as u64 * 0x100000000 + input[pos
            + 5] as u64 * 0x10000000000 + input[pos + 6] as u64 * 0x1000000000000 + input[pos
            + 7] as u64 * 0x100000000000000;
        Ok((v, pos + 8))
    } else {
        Err(DecodeError::MalformedEncoding)
    }
}

// ---------------------------------------------------------------------------
// Generic containers: length-prefixed sequences and optional values
// ---------------------------------------------------------------------------
/// Exactly `n` values of `T` decoded back to back, as by the sequence
/// decoder after its length prefix has been read.
pub open spec fn spec_decode_repeat<T: Decode>(input: Seq<u8>, pos: int, n: nat) -> Option<
    (Seq<T::V>, int),
>
    decreases n,
{
    if n == 0 {
        Some((Seq::empty(), pos))
    } else {
        match T::spec_decode(input, pos) {
            Some(vp) => match spec_decode_repeat::<T>(input, vp.1, (n - 1) as nat) {
                Some(rest) => Some((seq![vp.0] + rest.0, rest.1)),
                None => None,
            },
            None => None,
        }
    }
}

/// A successful repeat yields exactly as many elements as were asked for.
pub proof fn lemma_decode_repeat_length<T: Decode>(input: Seq<u8>, pos: int, n: nat)
    ensures
        spec_decode_repeat::<T>(input, pos, n) matches Some(sp) ==> sp.0.len() == n,
    decreases n,
{
    if n > 0 {
        if let Some(vp) = T::spec_decode(input, pos) {
            lemma_decode_repeat_length::<T>(input, vp.1, (n - 1) as nat);
        }
    }
}

/// A successful repeat stays within the input and never moves backwards.
pub proof fn lemma_decode_repeat_bound<T: Decode>(input: Seq<u8>, pos: int, n: nat)
    requires
        0 <= pos <= input.len(),
    ensures
        spec_decode_repeat::<T>(input, pos, n) matches Some(sp) ==> pos <= sp.1 <= input.len(),
    decreases n,
{
    if n > 0 {
        if let Some(vp) = T::spec_decode(input, pos) {
            T::lemma_spec_decode_bound(input, pos);
            lemma_decode_repeat_bound::<T>(input, vp.1, (n - 1) as nat);
        }
    }
}

/// Length fidelity of sequence decoding: the number of elements decoded
/// equals the declared length prefix, and a zero-length sequence decodes
/// to the empty sequence with no element reads, the cursor stopping right
/// after the prefix.
pub proof fn lemma_seq_decode_length<T: Decode>(input: Seq<u8>, pos: int)
    ensures
        <Vec<T> as Decode>::spec_decode(input, pos) matches Some(sp) ==> {
            &&& u32::spec_decode(input, pos) matches Some(np)
            &&& sp.0.len() == np.0
            &&& (np.0 == 0 ==> sp.0 == Seq::<T::V>::empty() && sp.1 == np.1)
        },
{
    if let Some(np) = u32::spec_decode(input, pos) {
        lemma_decode_repeat_length::<T>(input, np.1, np.0 as nat);
    }
}

impl<T: Decode> Decode for Vec<T> {
    /// A sequence of `T` is its unsigned 32-bit element count followed by
    /// exactly that many elements in order.
    open spec fn spec_decode(input: Seq<u8>, pos: int) -> Option<(Seq<T::V>, int)> {
        match u32::spec_decode(input, pos) {
            Some(np) => spec_decode_repeat::<T>(input, np.1, np.0 as nat),
            None => None,
        }
    }

    fn decode(input: &[u8], pos: usize) -> (r: Result<(Self, usize), DecodeError>) {
        let (n, start) = u32::decode(input, pos)?;
        let mut cur = start;
        let mut out: Vec<T> = Vec::new();
        let mut i: u32 = 0;
        while i < n
            invariant
                pos <= start <= cur <= input@.len(),
                i <= n,
                u32::spec_decode(input@, pos as int) == Some((n, start as int)),
                ({
                    let whole = spec_decode_repeat::<T>(input@, start as int, n as nat);
                    match spec_decode_repeat::<T>(input@, cur as int, (n - i) as nat) {
                        Some(rest) => whole == Some((out.deep_view() + rest.0, rest.1)),
                        None => whole is None,
                    }
                }),
            decreases n - i,
        {
            let el = match T::decode(input, cur) {
                Ok(vp) => vp,
                Err(e) => {
                    return Err(e);
                },
            };
            let ghost prev = out;
            out.push(el.0);
            proof {
                lemma_deep_view_push(prev, out, el.0);
                if let Some(rest) = spec_decode_repeat::<T>(
                    input@,
                    el.1 as int,
                    (n - i - 1) as nat,
                ) {
                    assert(prev.deep_view() + (seq![el.0.deep_view()] + rest.0) =~= out.deep_view()
                        + rest.0);
                }
            }
            cur = el.1;
            i = i + 1;
        }
        assert(out.deep_view() + Seq::<T::V>::empty() =~= out.deep_view());
        Ok((out, cur))
    }

    proof fn lemma_spec_decode_bound(input: Seq<u8>, pos: int) {
        if let Some(np) = u32::spec_decode(input, pos) {
            lemma_u32_decode_bounds(input, pos);
            lemma_decode_repeat_bound::<T>(input, np.1, np.0 as nat);
        }
    }
}

impl<T: Decode> Decode for Option<T> {
    /// A best-effort probe: one `T` if its bytes decode, otherwise absent
    /// with the cursor unmoved.  It never fails; the surrounding grammar
    /// must make presence unambiguous.
    open spec fn spec_decode(input: Seq<u8>, pos: int) -> Option<(Option<T::V>, int)> {
        match T::spec_decode(input, pos) {
            Some(vp) => Some((Some(vp.0), vp.1)),
            None => Some((None, pos)),
        }
    }

    fn decode(input: &[u8], pos: usize) -> (r: Result<(Self, usize), DecodeError>) {
        match T::decode(input, pos) {
            Ok(vp) => Ok((Some(vp.0), vp.1)),
            Err(_) => Ok((None, pos)),
        }
    }

    proof fn lemma_spec_decode_bound(input: Seq<u8>, pos: int) {
        T::lemma_spec_decode_bound(input, pos);
    }
}

// ---------------------------------------------------------------------------
// Names
// ---------------------------------------------------------------------------
/// An owned byte sequence naming an entity, read as a length-prefixed run
/// of raw bytes; interpreting it as UTF-8 text is a concern of higher
/// layers.
#[derive(Debug, PartialEq, Eq)]
pub struct Name(pub Vec<u8>);

impl DeepView for Name {
    type V = Seq<u8>;

    open spec fn deep_view(&self) -> Seq<u8> {
        self.0.deep_view()
    }
}

impl Decode for Name {
    open spec fn spec_decode(input: Seq<u8>, pos: int) -> Option<(Seq<u8>, int)> {
        <Vec<u8> as Decode>::spec_decode(input, pos)
    }

    fn decode(input: &[u8], pos: usize) -> (r: Result<(Self, usize), DecodeError>) {
        let (bytes, p) = <Vec<u8> as Decode>::decode(input, pos)?;
        Ok((Name(bytes), p))
    }

    proof fn lemma_spec_decode_bound(input: Seq<u8>, pos: int) {
        <Vec<u8> as Decode>::lemma_spec_decode_bound(input, pos);
    }
}

} // verus!
