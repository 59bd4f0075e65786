use vstd::arithmetic::div_mod::lemma_fundamental_div_mod;
use vstd::prelude::*;

use crate::cursor::ByteCursor;
use crate::Stream;
use crate::StreamError;

verus! {

/// 256 to the `n`th power: how many values `n` bytes can hold.
pub open spec fn pow256(n: nat) -> nat
    decreases n,
{
    if n == 0 {
        1
    } else {
        256 * pow256((n - 1) as nat)
    }
}

/// The value of `s` read as an unsigned big-endian number: the first
/// byte is the most significant.
pub open spec fn be_value(s: Seq<u8>) -> nat
    decreases s.len(),
{
    if s.len() == 0 {
        0
    } else {
        (be_value(s.drop_last()) * 256 + s.last()) as nat
    }
}

/// The value of `s` read as an unsigned little-endian number: the first
/// byte is the least significant.
pub open spec fn le_value(s: Seq<u8>) -> nat
    decreases s.len(),
{
    if s.len() == 0 {
        0
    } else {
        (s.first() + 256 * le_value(s.drop_first())) as nat
    }
}

/// The two's-complement reading of an `n`-byte unsigned value `v` as a
/// signed number: values in the upper half stand for negatives.
pub open spec fn signed_of(v: nat, n: nat) -> int {
    if 2 * v < pow256(n) {
        v as int
    } else {
        v - pow256(n)
    }
}

/// The `n`-byte big-endian encoding of `v`.
pub open spec fn be_bytes_of(v: nat, n: nat) -> Seq<u8>
    decreases n,
{
    if n == 0 {
        Seq::empty()
    } else {
        be_bytes_of(v / 256, (n - 1) as nat).push((v % 256) as u8)
    }
}

/// The `n`-byte little-endian encoding of `v`.
pub open spec fn le_bytes_of(v: nat, n: nat) -> Seq<u8>
    decreases n,
{
    if n == 0 {
        Seq::empty()
    } else {
        seq![(v % 256) as u8] + le_bytes_of(v / 256, (n - 1) as nat)
    }
}

/// How many bytes a platform word holds.
pub open spec fn word_bytes() -> nat {
    (usize::BITS / 8) as nat
}

/// The `count` bytes standing at the cursor's current position.
pub open spec fn bytes_at(inner: ByteCursor, count: int) -> Seq<u8> {
    inner.bytes().subrange(inner.pos() as int, inner.pos() + count)
}

/// Powers of 256 at the byte widths this module decodes.
pub proof fn lemma_pow256_values()
    ensures
        pow256(0) == 1,
        pow256(1) == 0x100,
        pow256(2) == 0x10000,
        pow256(4) == 0x1_0000_0000,
        pow256(8) == 0x1_0000_0000_0000_0000,
        pow256(16) == 0x1_0000_0000_0000_0000_0000_0000_0000_0000,
{
    assert(pow256(0) == 1);
    assert(pow256(1) == 0x100);
    assert(pow256(2) == 0x10000);
    assert(pow256(3) == 0x100_0000);
    assert(pow256(4) == 0x1_0000_0000);
    assert(pow256(5) == 0x100_0000_0000);
    assert(pow256(6) == 0x1_0000_0000_0000);
    assert(pow256(7) == 0x100_0000_0000_0000);
    assert(pow256(8) == 0x1_0000_0000_0000_0000);
    assert(pow256(9) == 0x100_0000_0000_0000_0000);
    assert(pow256(10) == 0x1_0000_0000_0000_0000_0000);
    assert(pow256(11) == 0x100_0000_0000_0000_0000_0000);
    assert(pow256(12) == 0x1_0000_0000_0000_0000_0000_0000);
    assert(pow256(13) == 0x100_0000_0000_0000_0000_0000_0000);
    assert(pow256(14) == 0x1_0000_0000_0000_0000_0000_0000_0000);
    assert(pow256(15) == 0x100_0000_0000_0000_0000_0000_0000_0000);
    assert(pow256(16) == 0x1_0000_0000_0000_0000_0000_0000_0000_0000);
}

/// A power of 256 is never zero.
pub proof fn lemma_pow256_pos(n: nat)
    ensures
        pow256(n) >= 1,
    decreases n,
{
    if n > 0 {
        lemma_pow256_pos((n - 1) as nat);
    }
}

/// Powers of 256 grow with the exponent.
pub proof fn lemma_pow256_mono(i: nat, j: nat)
    requires
        i <= j,
    ensures
        pow256(i) <= pow256(j),
    decreases j - i,
{
    if i < j {
        lemma_pow256_mono(i, (j - 1) as nat);
        lemma_pow256_pos((j - 1) as nat);
    }
}

/// A big-endian reading of `n` bytes always stays below 256 to the `n`.
pub proof fn lemma_be_value_bound(s: Seq<u8>)
    ensures
        be_value(s) < pow256(s.len()),
    decreases s.len(),
{
    if s.len() > 0 {
        lemma_be_value_bound(s.drop_last());
    }
}

/// A little-endian reading of `n` bytes always stays below 256 to the
/// `n`.
pub proof fn lemma_le_value_bound(s: Seq<u8>)
    ensures
        le_value(s) < pow256(s.len()),
    decreases s.len(),
{
    if s.len() > 0 {
        lemma_le_value_bound(s.drop_first());
    }
}

/// Law: decoding inverts encoding. Any value that `n` bytes can hold,
/// written in its `n`-byte big-endian form, reads back as itself.
pub proof fn lemma_be_round_trip(v: nat, n: nat)
    requires
        v < pow256(n),
    ensures
        be_value(be_bytes_of(v, n)) == v,
    decreases n,
{
    if n == 0 {
    } else {
        let rest = be_bytes_of(v / 256, (n - 1) as nat);
        assert(rest.push((v % 256) as u8).drop_last() =~= rest);
        lemma_fundamental_div_mod(v as int, 256);
        assert(v / 256 < pow256((n - 1) as nat));
        lemma_be_round_trip(v / 256, (n - 1) as nat);
    }
}

/// Law: decoding inverts encoding. Any value that `n` bytes can hold,
/// written in its `n`-byte little-endian form, reads back as itself.
pub proof fn lemma_le_round_trip(v: nat, n: nat)
    requires
        v < pow256(n),
    ensures
        le_value(le_bytes_of(v, n)) == v,
    decreases n,
{
    if n == 0 {
    } else {
        let rest = le_bytes_of(v / 256, (n - 1) as nat);
        let whole = seq![(v % 256) as u8] + rest;
        assert(whole.first() == (v % 256) as u8);
        assert(whole.drop_first() =~= rest);
        lemma_fundamental_div_mod(v as int, 256);
        assert(v / 256 < pow256((n - 1) as nat));
        lemma_le_round_trip(v / 256, (n - 1) as nat);
    }
}

/// The `n`-byte unsigned representative of a signed value: negatives
/// wrap around the top of the range, as two's complement has it.
pub open spec fn unsigned_rep(w: int, n: nat) -> nat {
    if w >= 0 {
        w as nat
    } else {
        (w + pow256(n)) as nat
    }
}

/// Law: decoding inverts encoding for signed values too. Any value an
/// `n`-byte two's-complement number can hold, taken through its unsigned
/// representative and its big-endian bytes, reads back as itself.
pub proof fn lemma_be_signed_round_trip(w: int, n: nat)
    requires
        -pow256(n) <= 2 * w < pow256(n),
    ensures
        signed_of(be_value(be_bytes_of(unsigned_rep(w, n), n)), n) == w,
{
    lemma_be_round_trip(unsigned_rep(w, n), n);
}

/// Law: the little-endian counterpart of the signed round trip.
pub proof fn lemma_le_signed_round_trip(w: int, n: nat)
    requires
        -pow256(n) <= 2 * w < pow256(n),
    ensures
        signed_of(le_value(le_bytes_of(unsigned_rep(w, n), n)), n) == w,
{
    lemma_le_round_trip(unsigned_rep(w, n), n);
}

/// Folds a byte buffer into its big-endian value, most significant byte
/// first.
fn fold_be(bytes: &Vec<u8>) -> (v: u128)
    requires
        bytes@.len() <= 16,
    ensures
        v == be_value(bytes@),
{
    let mut acc: u128 = 0;
    let mut i: usize = 0;
    while i < bytes.len()
        invariant
            i <= bytes@.len() <= 16,
            acc == be_value(bytes@.take(i as int)),
            acc < pow256(i as nat),
        decreases bytes@.len() - i,
    {
        proof {
            assert(bytes@.take(i + 1).drop_last() =~= bytes@.take(i as int));
            assert(bytes@.take(i + 1).last() == bytes@[i as int]);
            lemma_pow256_mono(i as nat, 15);
            lemma_pow256_values();
        }
        acc = acc * 256 + (bytes[i] as u128);
        i = i + 1;
    }
    proof {
        assert(bytes@.take(bytes@.len() as int) =~= bytes@);
    }
    acc
}

/// Folds a byte buffer into its little-endian value, least significant
/// byte first.
fn fold_le(bytes: &Vec<u8>) -> (v: u128)
    requires
        bytes@.len() <= 16,
    ensures
        v == le_value(bytes@),
{
    let mut acc: u128 = 0;
    let mut i: usize = bytes.len();
    while i > 0
        invariant
            i <= bytes@.len() <= 16,
            acc == le_value(bytes@.skip(i as int)),
            acc < pow256((bytes@.len() - i) as nat),
        decreases i,
    {
        proof {
            assert(bytes@.skip(i - 1).first() == bytes@[i - 1]);
            assert(bytes@.skip(i - 1).drop_first() =~= bytes@.skip(i as int));
            lemma_pow256_mono((bytes@.len() - i) as nat, 15);
            lemma_pow256_values();
        }
        i = i - 1;
        acc = acc * 256 + (bytes[i] as u128);
    }
    proof {
        assert(bytes@.skip(0) =~= bytes@);
    }
    acc
}

/// Reads `count` bytes through the window and yields their big-endian
/// value, or the decode failure when fewer than `count` bytes remain.
fn read_be_uint(s: &Stream, inner: &mut ByteCursor, count: usize) -> (r: Result<u128, StreamError>)
    requires
        1 <= count <= 16,
    ensures
        final(inner).bytes() == old(inner).bytes(),
        r is Ok <==> count <= s.spec_remainder(*old(inner)),
        r is Ok ==> r->Ok_0 == be_value(bytes_at(*old(inner), count as int)) && r->Ok_0 < pow256(
            count as nat,
        ) && final(inner).pos() == old(inner).pos() + count,
        r is Err ==> r->Err_0 == StreamError::UnexpectedEof && final(inner).pos() == old(inner).pos() + s.spec_remainder(*old(inner)),
{
    match s.read_exact(inner, count) {
        Ok(buf) => {
            proof {
                assert(buf@ =~= bytes_at(*old(inner), count as int));
                lemma_be_value_bound(buf@);
            }
            Ok(fold_be(&buf))
        }
        Err(e) => Err(e),
    }
}

/// Reads `count` bytes through the window and yields their little-endian
/// value, or the decode failure when fewer than `count` bytes remain.
fn read_le_uint(s: &Stream, inner: &mut ByteCursor, count: usize) -> (r: Result<u128, StreamError>)
    requires
        1 <= count <= 16,
    ensures
        final(inner).bytes() == old(inner).bytes(),
        r is Ok <==> count <= s.spec_remainder(*old(inner)),
        r is Ok ==> r->Ok_0 == le_value(bytes_at(*old(inner), count as int)) && r->Ok_0 < pow256(
            count as nat,
        ) && final(inner).pos() == old(inner).pos() + count,
        r is Err ==> r->Err_0 == StreamError::UnexpectedEof && final(inner).pos() == old(inner).pos() + s.spec_remainder(*old(inner)),
{
    match s.read_exact(inner, count) {
        Ok(buf) => {
            proof {
                assert(buf@ =~= bytes_at(*old(inner), count as int));
                lemma_le_value_bound(buf@);
            }
            Ok(fold_le(&buf))
        }
        Err(e) => Err(e),
    }
}

/// Reinterprets a one-byte value in two's complement.
fn to_signed_1(v: u128) -> (r: i8)
    requires
        v < 0x100,
    ensures
        r == signed_of(v as nat, 1),
{
    proof {
        lemma_pow256_values();
    }
    if v < 0x80 {
        v as i8
    } else {
        ((v - 0x80) as i8) + i8::MIN
    }
}

/// Reinterprets a two-byte value in two's complement.
fn to_signed_2(v: u128) -> (r: i16)
    requires
        v < 0x10000,
    ensures
        r == signed_of(v as nat, 2),
{
    proof {
        lemma_pow256_values();
    }
    if v < 0x8000 {
        v as i16
    } else {
        ((v - 0x8000) as i16) + i16::MIN
    }
}

/// Reinterprets a four-byte value in two's complement.
fn to_signed_4(v: u128) -> (r: i32)
    requires
        v < 0x1_0000_0000,
    ensures
        r == signed_of(v as nat, 4),
{
    proof {
        lemma_pow256_values();
    }
    if v < 0x8000_0000 {
        v as i32
    } else {
        ((v - 0x8000_0000) as i32) + i32::MIN
    }
}

/// Reinterprets an eight-byte value in two's complement.
fn to_signed_8(v: u128) -> (r: i64)
    requires
        v < 0x1_0000_0000_0000_0000,
    ensures
        r == signed_of(v as nat, 8),
{
    proof {
        lemma_pow256_values();
    }
    if v < 0x8000_0000_0000_0000 {
        v as i64
    } else {
        ((v - 0x8000_0000_0000_0000) as i64) + i64::MIN
    }
}

/// Reinterprets a sixteen-byte value in two's complement.
fn to_signed_16(v: u128) -> (r: i128)
    requires
        v < 0x1_0000_0000_0000_0000_0000_0000_0000_0000,
    ensures
        r == signed_of(v as nat, 16),
{
    proof {
        lemma_pow256_values();
    }
    if v < 0x8000_0000_0000_0000_0000_0000_0000_0000 {
        v as i128
    } else {
        ((v - 0x8000_0000_0000_0000_0000_0000_0000_0000) as i128) + i128::MIN
    }
}

/// Reinterprets a word-sized value in two's complement.
fn to_signed_word(v: u128) -> (r: isize)
    requires
        v < pow256(word_bytes()),
    ensures
        r == signed_of(v as nat, word_bytes()),
{
    proof {
        lemma_pow256_values();
    }
    if usize::BITS == 64 {
        if v < 0x8000_0000_0000_0000 {
            v as isize
        } else {
            ((v - 0x8000_0000_0000_0000) as isize) + isize::MIN
        }
    } else {
        if v < 0x8000_0000 {
            v as isize
        } else {
            ((v - 0x8000_0000) as isize) + isize::MIN
        }
    }
}

/// How many bytes a platform word takes, as a machine value.
fn word_byte_count() -> (n: usize)
    ensures
        n == word_bytes(),
        n == 4 || n == 8,
{
    if usize::BITS == 64 {
        8
    } else {
        4
    }
}

/// Decodes fixed-width numbers whose most significant byte comes first.
pub struct BigEndianReader;

impl BigEndianReader {
    /// Decodes a `u8` from one byte read through the window.
    pub fn read_u8(s: &Stream, inner: &mut ByteCursor) -> (r: Result<u8, StreamError>)
        ensures
            final(inner).bytes() == old(inner).bytes(),
            r is Ok <==> 1 <= s.spec_remainder(*old(inner)),
            r is Ok ==> r->Ok_0 == be_value(bytes_at(*old(inner), 1)) && final(inner).pos() == old(inner).pos() + 1,
            r is Err ==> r->Err_0 == StreamError::UnexpectedEof && final(inner).pos() == old(inner).pos() + s.spec_remainder(*old(inner)),
    {
        proof {
            lemma_pow256_values();
        }
        match read_be_uint(s, inner, 1) {
            Ok(v) => Ok(v as u8),
            Err(e) => Err(e),
        }
    }

    /// Decodes a `u16` from two big-endian bytes read through the window.
    pub fn read_u16(s: &Stream, inner: &mut ByteCursor) -> (r: Result<u16, StreamError>)
        ensures
            final(inner).bytes() == old(inner).bytes(),
            r is Ok <==> 2 <= s.spec_remainder(*old(inner)),
            r is Ok ==> r->Ok_0 == be_value(bytes_at(*old(inner), 2)) && final(inner).pos() == old(inner).pos() + 2,
            r is Err ==> r->Err_0 == StreamError::UnexpectedEof && final(inner).pos() == old(inner).pos() + s.spec_remainder(*old(inner)),
    {
        proof {
            lemma_pow256_values();
        }
        match read_be_uint(s, inner, 2) {
            Ok(v) => Ok(v as u16),
            Err(e) => Err(e),
        }
    }

    /// Decodes a `u32` from four big-endian bytes read through the
    /// window.
    pub fn read_u32(s: &Stream, inner: &mut ByteCursor) -> (r: Result<u32, StreamError>)
        ensures
            final(inner).bytes() == old(inner).bytes(),
            r is Ok <==> 4 <= s.spec_remainder(*old(inner)),
            r is Ok ==> r->Ok_0 == be_value(bytes_at(*old(inner), 4)) && final(inner).pos() == old(inner).pos() + 4,
            r is Err ==> r->Err_0 == StreamError::UnexpectedEof && final(inner).pos() == old(inner).pos() + s.spec_remainder(*old(inner)),
    {
        proof {
            lemma_pow256_values();
        }
        match read_be_uint(s, inner, 4) {
            Ok(v) => Ok(v as u32),
            Err(e) => Err(e),
        }
    }

    /// Decodes a `u64` from eight big-endian bytes read through the
    /// window.
    pub fn read_u64(s: &Stream, inner: &mut ByteCursor) -> (r: Result<u64, StreamError>)
        ensures
            final(inner).bytes() == old(inner).bytes(),
            r is Ok <==> 8 <= s.spec_remainder(*old(inner)),
            r is Ok ==> r->Ok_0 == be_value(bytes_at(*old(inner), 8)) && final(inner).pos() == old(inner).pos() + 8,
            r is Err ==> r->Err_0 == StreamError::UnexpectedEof && final(inner).pos() == old(inner).pos() + s.spec_remainder(*old(inner)),
    {
        proof {
            lemma_pow256_values();
        }
        match read_be_uint(s, inner, 8) {
            Ok(v) => Ok(v as u64),
            Err(e) => Err(e),
        }
    }

    /// Decodes a `u128` from sixteen big-endian bytes read through the
    /// window.
    pub fn read_u128(s: &Stream, inner: &mut ByteCursor) -> (r: Result<u128, StreamError>)
        ensures
            final(inner).bytes() == old(inner).bytes(),
            r is Ok <==> 16 <= s.spec_remainder(*old(inner)),
            r is Ok ==> r->Ok_0 == be_value(bytes_at(*old(inner), 16)) && final(inner).pos()
                == old(inner).pos() + 16,
            r is Err ==> r->Err_0 == StreamError::UnexpectedEof && final(inner).pos() == old(inner).pos() + s.spec_remainder(*old(inner)),
    {
        read_be_uint(s, inner, 16)
    }

    /// Decodes an `i8` from one byte read through the window, in two's
    /// complement.
    pub fn read_i8(s: &Stream, inner: &mut ByteCursor) -> (r: Result<i8, StreamError>)
        ensures
            final(inner).bytes() == old(inner).bytes(),
            r is Ok <==> 1 <= s.spec_remainder(*old(inner)),
            r is Ok ==> r->Ok_0 == signed_of(be_value(bytes_at(*old(inner), 1)), 1) && final(inner).pos() == old(inner).pos() + 1,
            r is Err ==> r->Err_0 == StreamError::UnexpectedEof && final(inner).pos() == old(inner).pos() + s.spec_remainder(*old(inner)),
    {
        proof {
            lemma_pow256_values();
        }
        match read_be_uint(s, inner, 1) {
            Ok(v) => Ok(to_signed_1(v)),
            Err(e) => Err(e),
        }
    }

    /// Decodes an `i16` from two big-endian bytes read through the
    /// window, in two's complement.
    pub fn read_i16(s: &Stream, inner: &mut ByteCursor) -> (r: Result<i16, StreamError>)
        ensures
            final(inner).bytes() == old(inner).bytes(),
            r is Ok <==> 2 <= s.spec_remainder(*old(inner)),
            r is Ok ==> r->Ok_0 == signed_of(be_value(bytes_at(*old(inner), 2)), 2) && final(inner).pos() == old(inner).pos() + 2,
            r is Err ==> r->Err_0 == StreamError::UnexpectedEof && final(inner).pos() == old(inner).pos() + s.spec_remainder(*old(inner)),
    {
        proof {
            lemma_pow256_values();
        }
        match read_be_uint(s, inner, 2) {
            Ok(v) => Ok(to_signed_2(v)),
            Err(e) => Err(e),
        }
    }

    /// Decodes an `i32` from four big-endian bytes read through the
    /// window, in two's complement.
    pub fn read_i32(s: &Stream, inner: &mut ByteCursor) -> (r: Result<i32, StreamError>)
        ensures
            final(inner).bytes() == old(inner).bytes(),
            r is Ok <==> 4 <= s.spec_remainder(*old(inner)),
            r is Ok ==> r->Ok_0 == signed_of(be_value(bytes_at(*old(inner), 4)), 4) && final(inner).pos() == old(inner).pos() + 4,
            r is Err ==> r->Err_0 == StreamError::UnexpectedEof && final(inner).pos() == old(inner).pos() + s.spec_remainder(*old(inner)),
    {
        proof {
            lemma_pow256_values();
        }
        match read_be_uint(s, inner, 4) {
            Ok(v) => Ok(to_signed_4(v)),
            Err(e) => Err(e),
        }
    }

    /// Decodes an `i64` from eight big-endian bytes read through the
    /// window, in two's complement.
    pub fn read_i64(s: &Stream, inner: &mut ByteCursor) -> (r: Result<i64, StreamError>)
        ensures
            final(inner).bytes() == old(inner).bytes(),
            r is Ok <==> 8 <= s.spec_remainder(*old(inner)),
            r is Ok ==> r->Ok_0 == signed_of(be_value(bytes_at(*old(inner), 8)), 8) && final(inner).pos() == old(inner).pos() + 8,
            r is Err ==> r->Err_0 == StreamError::UnexpectedEof && final(inner).pos() == old(inner).pos() + s.spec_remainder(*old(inner)),
    {
        proof {
            lemma_pow256_values();
        }
        match read_be_uint(s, inner, 8) {
            Ok(v) => Ok(to_signed_8(v)),
            Err(e) => Err(e),
        }
    }

    /// Decodes an `i128` from sixteen big-endian bytes read through the
    /// window, in two's complement.
    pub fn read_i128(s: &Stream, inner: &mut ByteCursor) -> (r: Result<i128, StreamError>)
        ensures
            final(inner).bytes() == old(inner).bytes(),
            r is Ok <==> 16 <= s.spec_remainder(*old(inner)),
            r is Ok ==> r->Ok_0 == signed_of(be_value(bytes_at(*old(inner), 16)), 16) && final(inner).pos() == old(inner).pos() + 16,
            r is Err ==> r->Err_0 == StreamError::UnexpectedEof && final(inner).pos() == old(inner).pos() + s.spec_remainder(*old(inner)),
    {
        proof {
            lemma_pow256_values();
        }
        match read_be_uint(s, inner, 16) {
            Ok(v) => Ok(to_signed_16(v)),
            Err(e) => Err(e),
        }
    }

    /// Decodes a `usize` from one platform word of big-endian bytes read
    /// through the window.
    pub fn read_usize(s: &Stream, inner: &mut ByteCursor) -> (r: Result<usize, StreamError>)
        ensures
            final(inner).bytes() == old(inner).bytes(),
            r is Ok <==> word_bytes() <= s.spec_remainder(*old(inner)),
            r is Ok ==> r->Ok_0 == be_value(bytes_at(*old(inner), word_bytes() as int)) && final(inner).pos() == old(inner).pos() + word_bytes(),
            r is Err ==> r->Err_0 == StreamError::UnexpectedEof && final(inner).pos() == old(inner).pos() + s.spec_remainder(*old(inner)),
    {
        proof {
            lemma_pow256_values();
        }
        let count: usize = word_byte_count();
        match read_be_uint(s, inner, count) {
            Ok(v) => Ok(v as usize),
            Err(e) => Err(e),
        }
    }

    /// Decodes an `isize` from one platform word of big-endian bytes
    /// read through the window, in two's complement.
    pub fn read_isize(s: &Stream, inner: &mut ByteCursor) -> (r: Result<isize, StreamError>)
        ensures
            final(inner).bytes() == old(inner).bytes(),
            r is Ok <==> word_bytes() <= s.spec_remainder(*old(inner)),
            r is Ok ==> r->Ok_0 == signed_of(
                be_value(bytes_at(*old(inner), word_bytes() as int)),
                word_bytes(),
            ) && final(inner).pos() == old(inner).pos() + word_bytes(),
            r is Err ==> r->Err_0 == StreamError::UnexpectedEof && final(inner).pos() == old(inner).pos() + s.spec_remainder(*old(inner)),
    {
        proof {
            lemma_pow256_values();
        }
        let count: usize = word_byte_count();
        match read_be_uint(s, inner, count) {
            Ok(v) => Ok(to_signed_word(v)),
            Err(e) => Err(e),
        }
    }
}

/// Decodes fixed-width numbers whose least significant byte comes first.
pub struct LittleEndianReader;

impl LittleEndianReader {
    /// Decodes a `u8` from one byte read through the window.
    pub fn read_u8(s: &Stream, inner: &mut ByteCursor) -> (r: Result<u8, StreamError>)
        ensures
            final(inner).bytes() == old(inner).bytes(),
            r is Ok <==> 1 <= s.spec_remainder(*old(inner)),
            r is Ok ==> r->Ok_0 == le_value(bytes_at(*old(inner), 1)) && final(inner).pos() == old(inner).pos() + 1,
            r is Err ==> r->Err_0 == StreamError::UnexpectedEof && final(inner).pos() == old(inner).pos() + s.spec_remainder(*old(inner)),
    {
        proof {
            lemma_pow256_values();
        }
        match read_le_uint(s, inner, 1) {
            Ok(v) => Ok(v as u8),
            Err(e) => Err(e),
        }
    }

    /// Decodes a `u16` from two little-endian bytes read through the window.
    pub fn read_u16(s: &Stream, inner: &mut ByteCursor) -> (r: Result<u16, StreamError>)
        ensures
            final(inner).bytes() == old(inner).bytes(),
            r is Ok <==> 2 <= s.spec_remainder(*old(inner)),
            r is Ok ==> r->Ok_0 == le_value(bytes_at(*old(inner), 2)) && final(inner).pos() == old(inner).pos() + 2,
            r is Err ==> r->Err_0 == StreamError::UnexpectedEof && final(inner).pos() == old(inner).pos() + s.spec_remainder(*old(inner)),
    {
        proof {
            lemma_pow256_values();
        }
        match read_le_uint(s, inner, 2) {
            Ok(v) => Ok(v as u16),
            Err(e) => Err(e),
        }
    }

    /// Decodes a `u32` from four little-endian bytes read through the
    /// window.
    pub fn read_u32(s: &Stream, inner: &mut ByteCursor) -> (r: Result<u32, StreamError>)
        ensures
            final(inner).bytes() == old(inner).bytes(),
            r is Ok <==> 4 <= s.spec_remainder(*old(inner)),
            r is Ok ==> r->Ok_0 == le_value(bytes_at(*old(inner), 4)) && final(inner).pos() == old(inner).pos() + 4,
            r is Err ==> r->Err_0 == StreamError::UnexpectedEof && final(inner).pos() == old(inner).pos() + s.spec_remainder(*old(inner)),
    {
        proof {
            lemma_pow256_values();
        }
        match read_le_uint(s, inner, 4) {
            Ok(v) => Ok(v as u32),
            Err(e) => Err(e),
        }
    }

    /// Decodes a `u64` from eight little-endian bytes read through the
    /// window.
    pub fn read_u64(s: &Stream, inner: &mut ByteCursor) -> (r: Result<u64, StreamError>)
        ensures
            final(inner).bytes() == old(inner).bytes(),
            r is Ok <==> 8 <= s.spec_remainder(*old(inner)),
            r is Ok ==> r->Ok_0 == le_value(bytes_at(*old(inner), 8)) && final(inner).pos() == old(inner).pos() + 8,
            r is Err ==> r->Err_0 == StreamError::UnexpectedEof && final(inner).pos() == old(inner).pos() + s.spec_remainder(*old(inner)),
    {
        proof {
            lemma_pow256_values();
        }
        match read_le_uint(s, inner, 8) {
            Ok(v) => Ok(v as u64),
            Err(e) => Err(e),
        }
    }

    /// Decodes a `u128` from sixteen little-endian bytes read through the
    /// window.
    pub fn read_u128(s: &Stream, inner: &mut ByteCursor) -> (r: Result<u128, StreamError>)
        ensures
            final(inner).bytes() == old(inner).bytes(),
            r is Ok <==> 16 <= s.spec_remainder(*old(inner)),
            r is Ok ==> r->Ok_0 == le_value(bytes_at(*old(inner), 16)) && final(inner).pos()
                == old(inner).pos() + 16,
            r is Err ==> r->Err_0 == StreamError::UnexpectedEof && final(inner).pos() == old(inner).pos() + s.spec_remainder(*old(inner)),
    {
        read_le_uint(s, inner, 16)
    }

    /// Decodes an `i8` from one byte read through the window, in two's
    /// complement.
    pub fn read_i8(s: &Stream, inner: &mut ByteCursor) -> (r: Result<i8, StreamError>)
        ensures
            final(inner).bytes() == old(inner).bytes(),
            r is Ok <==> 1 <= s.spec_remainder(*old(inner)),
            r is Ok ==> r->Ok_0 == signed_of(le_value(bytes_at(*old(inner), 1)), 1) && final(inner).pos() == old(inner).pos() + 1,
            r is Err ==> r->Err_0 == StreamError::UnexpectedEof && final(inner).pos() == old(inner).pos() + s.spec_remainder(*old(inner)),
    {
        proof {
            lemma_pow256_values();
        }
        match read_le_uint(s, inner, 1) {
            Ok(v) => Ok(to_signed_1(v)),
            Err(e) => Err(e),
        }
    }

    /// Decodes an `i16` from two little-endian bytes read through the
    /// window, in two's complement.
    pub fn read_i16(s: &Stream, inner: &mut ByteCursor) -> (r: Result<i16, StreamError>)
        ensures
            final(inner).bytes() == old(inner).bytes(),
            r is Ok <==> 2 <= s.spec_remainder(*old(inner)),
            r is Ok ==> r->Ok_0 == signed_of(le_value(bytes_at(*old(inner), 2)), 2) && final(inner).pos() == old(inner).pos() + 2,
            r is Err ==> r->Err_0 == StreamError::UnexpectedEof && final(inner).pos() == old(inner).pos() + s.spec_remainder(*old(inner)),
    {
        proof {
            lemma_pow256_values();
        }
        match read_le_uint(s, inner, 2) {
            Ok(v) => Ok(to_signed_2(v)),
            Err(e) => Err(e),
        }
    }

    /// Decodes an `i32` from four little-endian bytes read through the
    /// window, in two's complement.
    pub fn read_i32(s: &Stream, inner: &mut ByteCursor) -> (r: Result<i32, StreamError>)
        ensures
            final(inner).bytes() == old(inner).bytes(),
            r is Ok <==> 4 <= s.spec_remainder(*old(inner)),
            r is Ok ==> r->Ok_0 == signed_of(le_value(bytes_at(*old(inner), 4)), 4) && final(inner).pos() == old(inner).pos() + 4,
            r is Err ==> r->Err_0 == StreamError::UnexpectedEof && final(inner).pos() == old(inner).pos() + s.spec_remainder(*old(inner)),
    {
        proof {
            lemma_pow256_values();
        }
        match read_le_uint(s, inner, 4) {
            Ok(v) => Ok(to_signed_4(v)),
            Err(e) => Err(e),
        }
    }

    /// Decodes an `i64` from eight little-endian bytes read through the
    /// window, in two's complement.
    pub fn read_i64(s: &Stream, inner: &mut ByteCursor) -> (r: Result<i64, StreamError>)
        ensures
            final(inner).bytes() == old(inner).bytes(),
            r is Ok <==> 8 <= s.spec_remainder(*old(inner)),
            r is Ok ==> r->Ok_0 == signed_of(le_value(bytes_at(*old(inner), 8)), 8) && final(inner).pos() == old(inner).pos() + 8,
            r is Err ==> r->Err_0 == StreamError::UnexpectedEof && final(inner).pos() == old(inner).pos() + s.spec_remainder(*old(inner)),
    {
        proof {
            lemma_pow256_values();
        }
        match read_le_uint(s, inner, 8) {
            Ok(v) => Ok(to_signed_8(v)),
            Err(e) => Err(e),
        }
    }

    /// Decodes an `i128` from sixteen little-endian bytes read through the
    /// window, in two's complement.
    pub fn read_i128(s: &Stream, inner: &mut ByteCursor) -> (r: Result<i128, StreamError>)
        ensures
            final(inner).bytes() == old(inner).bytes(),
            r is Ok <==> 16 <= s.spec_remainder(*old(inner)),
            r is Ok ==> r->Ok_0 == signed_of(le_value(bytes_at(*old(inner), 16)), 16) && final(inner).pos() == old(inner).pos() + 16,
            r is Err ==> r->Err_0 == StreamError::UnexpectedEof && final(inner).pos() == old(inner).pos() + s.spec_remainder(*old(inner)),
    {
        proof {
            lemma_pow256_values();
        }
        match read_le_uint(s, inner, 16) {
            Ok(v) => Ok(to_signed_16(v)),
            Err(e) => Err(e),
        }
    }

    /// Decodes a `usize` from one platform word of little-endian bytes read
    /// through the window.
    pub fn read_usize(s: &Stream, inner: &mut ByteCursor) -> (r: Result<usize, StreamError>)
        ensures
            final(inner).bytes() == old(inner).bytes(),
            r is Ok <==> word_bytes() <= s.spec_remainder(*old(inner)),
            r is Ok ==> r->Ok_0 == le_value(bytes_at(*old(inner), word_bytes() as int)) && final(inner).pos() == old(inner).pos() + word_bytes(),
            r is Err ==> r->Err_0 == StreamError::UnexpectedEof && final(inner).pos() == old(inner).pos() + s.spec_remainder(*old(inner)),
    {
        proof {
            lemma_pow256_values();
        }
        let count: usize = word_byte_count();
        match read_le_uint(s, inner, count) {
            Ok(v) => Ok(v as usize),
            Err(e) => Err(e),
        }
    }

    /// Decodes an `isize` from one platform word of little-endian bytes
    /// read through the window, in two's complement.
    pub fn read_isize(s: &Stream, inner: &mut ByteCursor) -> (r: Result<isize, StreamError>)
        ensures
            final(inner).bytes() == old(inner).bytes(),
            r is Ok <==> word_bytes() <= s.spec_remainder(*old(inner)),
            r is Ok ==> r->Ok_0 == signed_of(
                le_value(bytes_at(*old(inner), word_bytes() as int)),
                word_bytes(),
            ) && final(inner).pos() == old(inner).pos() + word_bytes(),
            r is Err ==> r->Err_0 == StreamError::UnexpectedEof && final(inner).pos() == old(inner).pos() + s.spec_remainder(*old(inner)),
    {
        proof {
            lemma_pow256_values();
        }
        let count: usize = word_byte_count();
        match read_le_uint(s, inner, count) {
            Ok(v) => Ok(to_signed_word(v)),
            Err(e) => Err(e),
        }
    }
}

/// Decodes fixed-width numbers in the byte order of the platform this
/// library is built for. Every target this crate supports orders bytes
/// least significant first, so the native order coincides with the
/// little-endian one and the contracts below say so outright.
pub struct NativeEndianReader;

impl NativeEndianReader {

    /// Decodes a `u8` from one byte read through the window.
    pub fn read_u8(s: &Stream, inner: &mut ByteCursor) -> (r: Result<u8, StreamError>)
        ensures
            final(inner).bytes() == old(inner).bytes(),
            r is Ok <==> 1 <= s.spec_remainder(*old(inner)),
            r is Ok ==> r->Ok_0 == le_value(bytes_at(*old(inner), 1)) && final(inner).pos() == old(inner).pos() + 1,
            r is Err ==> r->Err_0 == StreamError::UnexpectedEof && final(inner).pos() == old(inner).pos() + s.spec_remainder(*old(inner)),
    {
        LittleEndianReader::read_u8(s, inner)
    }

    /// Decodes a `u16` from two native-order bytes read through the window.
    pub fn read_u16(s: &Stream, inner: &mut ByteCursor) -> (r: Result<u16, StreamError>)
        ensures
            final(inner).bytes() == old(inner).bytes(),
            r is Ok <==> 2 <= s.spec_remainder(*old(inner)),
            r is Ok ==> r->Ok_0 == le_value(bytes_at(*old(inner), 2)) && final(inner).pos() == old(inner).pos() + 2,
            r is Err ==> r->Err_0 == StreamError::UnexpectedEof && final(inner).pos() == old(inner).pos() + s.spec_remainder(*old(inner)),
    {
        LittleEndianReader::read_u16(s, inner)
    }

    /// Decodes a `u32` from four native-order bytes read through the
    /// window.
    pub fn read_u32(s: &Stream, inner: &mut ByteCursor) -> (r: Result<u32, StreamError>)
        ensures
            final(inner).bytes() == old(inner).bytes(),
            r is Ok <==> 4 <= s.spec_remainder(*old(inner)),
            r is Ok ==> r->Ok_0 == le_value(bytes_at(*old(inner), 4)) && final(inner).pos() == old(inner).pos() + 4,
            r is Err ==> r->Err_0 == StreamError::UnexpectedEof && final(inner).pos() == old(inner).pos() + s.spec_remainder(*old(inner)),
    {
        LittleEndianReader::read_u32(s, inner)
    }

    /// Decodes a `u64` from eight native-order bytes read through the
    /// window.
    pub fn read_u64(s: &Stream, inner: &mut ByteCursor) -> (r: Result<u64, StreamError>)
        ensures
            final(inner).bytes() == old(inner).bytes(),
            r is Ok <==> 8 <= s.spec_remainder(*old(inner)),
            r is Ok ==> r->Ok_0 == le_value(bytes_at(*old(inner), 8)) && final(inner).pos() == old(inner).pos() + 8,
            r is Err ==> r->Err_0 == StreamError::UnexpectedEof && final(inner).pos() == old(inner).pos() + s.spec_remainder(*old(inner)),
    {
        LittleEndianReader::read_u64(s, inner)
    }

    /// Decodes a `u128` from sixteen native-order bytes read through the
    /// window.
    pub fn read_u128(s: &Stream, inner: &mut ByteCursor) -> (r: Result<u128, StreamError>)
        ensures
            final(inner).bytes() == old(inner).bytes(),
            r is Ok <==> 16 <= s.spec_remainder(*old(inner)),
            r is Ok ==> r->Ok_0 == le_value(bytes_at(*old(inner), 16)) && final(inner).pos()
                == old(inner).pos() + 16,
            r is Err ==> r->Err_0 == StreamError::UnexpectedEof && final(inner).pos() == old(inner).pos() + s.spec_remainder(*old(inner)),
    {
        LittleEndianReader::read_u128(s, inner)
    }

    /// Decodes an `i8` from one byte read through the window, in two's
    /// complement.
    pub fn read_i8(s: &Stream, inner: &mut ByteCursor) -> (r: Result<i8, StreamError>)
        ensures
            final(inner).bytes() == old(inner).bytes(),
            r is Ok <==> 1 <= s.spec_remainder(*old(inner)),
            r is Ok ==> r->Ok_0 == signed_of(le_value(bytes_at(*old(inner), 1)), 1) && final(inner).pos() == old(inner).pos() + 1,
            r is Err ==> r->Err_0 == StreamError::UnexpectedEof && final(inner).pos() == old(inner).pos() + s.spec_remainder(*old(inner)),
    {
        LittleEndianReader::read_i8(s, inner)
    }

    /// Decodes an `i16` from two native-order bytes read through the
    /// window, in two's complement.
    pub fn read_i16(s: &Stream, inner: &mut ByteCursor) -> (r: Result<i16, StreamError>)
        ensures
            final(inner).bytes() == old(inner).bytes(),
            r is Ok <==> 2 <= s.spec_remainder(*old(inner)),
            r is Ok ==> r->Ok_0 == signed_of(le_value(bytes_at(*old(inner), 2)), 2) && final(inner).pos() == old(inner).pos() + 2,
            r is Err ==> r->Err_0 == StreamError::UnexpectedEof && final(inner).pos() == old(inner).pos() + s.spec_remainder(*old(inner)),
    {
        LittleEndianReader::read_i16(s, inner)
    }

    /// Decodes an `i32` from four native-order bytes read through the
    /// window, in two's complement.
    pub fn read_i32(s: &Stream, inner: &mut ByteCursor) -> (r: Result<i32, StreamError>)
        ensures
            final(inner).bytes() == old(inner).bytes(),
            r is Ok <==> 4 <= s.spec_remainder(*old(inner)),
            r is Ok ==> r->Ok_0 == signed_of(le_value(bytes_at(*old(inner), 4)), 4) && final(inner).pos() == old(inner).pos() + 4,
            r is Err ==> r->Err_0 == StreamError::UnexpectedEof && final(inner).pos() == old(inner).pos() + s.spec_remainder(*old(inner)),
    {
        LittleEndianReader::read_i32(s, inner)
    }

    /// Decodes an `i64` from eight native-order bytes read through the
    /// window, in two's complement.
    pub fn read_i64(s: &Stream, inner: &mut ByteCursor) -> (r: Result<i64, StreamError>)
        ensures
            final(inner).bytes() == old(inner).bytes(),
            r is Ok <==> 8 <= s.spec_remainder(*old(inner)),
            r is Ok ==> r->Ok_0 == signed_of(le_value(bytes_at(*old(inner), 8)), 8) && final(inner).pos() == old(inner).pos() + 8,
            r is Err ==> r->Err_0 == StreamError::UnexpectedEof && final(inner).pos() == old(inner).pos() + s.spec_remainder(*old(inner)),
    {
        LittleEndianReader::read_i64(s, inner)
    }

    /// Decodes an `i128` from sixteen native-order bytes read through the
    /// window, in two's complement.
    pub fn read_i128(s: &Stream, inner: &mut ByteCursor) -> (r: Result<i128, StreamError>)
        ensures
            final(inner).bytes() == old(inner).bytes(),
            r is Ok <==> 16 <= s.spec_remainder(*old(inner)),
            r is Ok ==> r->Ok_0 == signed_of(le_value(bytes_at(*old(inner), 16)), 16) && final(inner).pos() == old(inner).pos() + 16,
            r is Err ==> r->Err_0 == StreamError::UnexpectedEof && final(inner).pos() == old(inner).pos() + s.spec_remainder(*old(inner)),
    {
        LittleEndianReader::read_i128(s, inner)
    }

    /// Decodes a `usize` from one platform word of native-order bytes read
    /// through the window.
    pub fn read_usize(s: &Stream, inner: &mut ByteCursor) -> (r: Result<usize, StreamError>)
        ensures
            final(inner).bytes() == old(inner).bytes(),
            r is Ok <==> word_bytes() <= s.spec_remainder(*old(inner)),
            r is Ok ==> r->Ok_0 == le_value(bytes_at(*old(inner), word_bytes() as int)) && final(inner).pos() == old(inner).pos() + word_bytes(),
            r is Err ==> r->Err_0 == StreamError::UnexpectedEof && final(inner).pos() == old(inner).pos() + s.spec_remainder(*old(inner)),
    {
        LittleEndianReader::read_usize(s, inner)
    }

    /// Decodes an `isize` from one platform word of native-order bytes
    /// read through the window, in two's complement.
    pub fn read_isize(s: &Stream, inner: &mut ByteCursor) -> (r: Result<isize, StreamError>)
        ensures
            final(inner).bytes() == old(inner).bytes(),
            r is Ok <==> word_bytes() <= s.spec_remainder(*old(inner)),
            r is Ok ==> r->Ok_0 == signed_of(
                le_value(bytes_at(*old(inner), word_bytes() as int)),
                word_bytes(),
            ) && final(inner).pos() == old(inner).pos() + word_bytes(),
            r is Err ==> r->Err_0 == StreamError::UnexpectedEof && final(inner).pos() == old(inner).pos() + s.spec_remainder(*old(inner)),
    {
        LittleEndianReader::read_isize(s, inner)
    }
}

} // verus!
