//! Little-endian primitives of the Unreal save format, read from a byte
//! buffer through a cursor. Every read is specified by a spec function over
//! the buffer's bytes and the cursor position.

use vstd::prelude::*;
use vstd::utf8::{char_u32_cast, is_scalar};

verus! {

/// Why a save header could not be read.
#[derive(Debug, Clone, Copy, PartialEq, Eq, Structural)]
pub enum HeaderError {
    /// The buffer ended before the value that was being read.
    UnexpectedEnd,
    /// The first field names a header layout this parser does not know.
    UnsupportedHeaderType(u32),
    /// The save version is not one of the accepted versions.
    UnsupportedSaveVersion(u32),
    /// A 32-bit boolean held something else than 0 or 1.
    InvalidBool(u32),
    /// A field with a fixed expected value held another value.
    UnexpectedValue { expected: u32, found: u32 },
    /// A UTF-16 string held an unpaired surrogate.
    InvalidString,
}

/// The unsigned integer that the four bytes at `p` encode, least significant first.
pub open spec fn le_u32_value(d: Seq<u8>, p: int) -> int {
    d[p] as int + d[p + 1] as int * 0x100 + d[p + 2] as int * 0x1_0000 + d[p + 3] as int
        * 0x100_0000
}

/// The unsigned integer that the eight bytes at `p` encode, least significant first.
pub open spec fn le_u64_value(d: Seq<u8>, p: int) -> int {
    le_u32_value(d, p) + le_u32_value(d, p + 4) * 0x1_0000_0000
}

pub open spec fn spec_read_u8(d: Seq<u8>, p: int) -> Result<(u8, int), HeaderError> {
    if 0 <= p && p + 1 <= d.len() {
        Ok((d[p], p + 1))
    } else {
        Err(HeaderError::UnexpectedEnd)
    }
}

pub open spec fn spec_read_u32(d: Seq<u8>, p: int) -> Result<(u32, int), HeaderError> {
    if 0 <= p && p + 4 <= d.len() {
        Ok((le_u32_value(d, p) as u32, p + 4))
    } else {
        Err(HeaderError::UnexpectedEnd)
    }
}

pub open spec fn spec_read_u64(d: Seq<u8>, p: int) -> Result<(u64, int), HeaderError> {
    if 0 <= p && p + 8 <= d.len() {
        Ok((le_u64_value(d, p) as u64, p + 8))
    } else {
        Err(HeaderError::UnexpectedEnd)
    }
}

/// A 32-bit boolean: 0 is false, 1 is true, anything else is refused.
pub open spec fn spec_read_bool_u32(d: Seq<u8>, p: int) -> Result<(bool, int), HeaderError> {
    match spec_read_u32(d, p) {
        Err(e) => Err(e),
        Ok((v, q)) => if v == 0 {
            Ok((false, q))
        } else if v == 1 {
            Ok((true, q))
        } else {
            Err(HeaderError::InvalidBool(v))
        },
    }
}

/// A 32-bit field that must hold `expected`.
pub open spec fn spec_confirm_u32(d: Seq<u8>, p: int, expected: u32) -> Result<int, HeaderError> {
    match spec_read_u32(d, p) {
        Err(e) => Err(e),
        Ok((v, q)) => if v == expected {
            Ok(q)
        } else {
            Err(HeaderError::UnexpectedValue { expected, found: v })
        },
    }
}

/// Each byte taken as the character with that code (Latin-1).
pub open spec fn latin1_chars(bytes: Seq<u8>) -> Seq<char> {
    Seq::new(bytes.len(), |i: int| bytes[i] as char)
}

/// `count` UTF-16 code units stored little-endian from `p` on.
pub open spec fn le_u16_units(d: Seq<u8>, p: int, count: int) -> Seq<u16> {
    Seq::new(count as nat, |i: int| (d[p + 2 * i] as int + d[p + 2 * i + 1] as int * 0x100) as u16)
}

pub open spec fn is_high_surrogate(u: u16) -> bool {
    0xD800 <= u <= 0xDBFF
}

pub open spec fn is_low_surrogate(u: u16) -> bool {
    0xDC00 <= u <= 0xDFFF
}

/// The character that a surrogate pair stands for.
pub open spec fn surrogate_pair_value(hi: u16, lo: u16) -> u32 {
    (0x1_0000 + (hi - 0xD800) * 0x400 + (lo - 0xDC00)) as u32
}

/// UTF-16 decoding; `None` where a surrogate is not paired.
pub open spec fn decode_utf16(u: Seq<u16>) -> Option<Seq<char>>
    decreases u.len(),
{
    if u.len() == 0 {
        Some(Seq::empty())
    } else if is_high_surrogate(u[0]) {
        if u.len() >= 2 && is_low_surrogate(u[1]) {
            match decode_utf16(u.skip(2)) {
                Some(rest) => Some(seq![surrogate_pair_value(u[0], u[1]) as char] + rest),
                None => None,
            }
        } else {
            None
        }
    } else if is_low_surrogate(u[0]) {
        None
    } else {
        match decode_utf16(u.skip(1)) {
            Some(rest) => Some(seq![(u[0] as u32) as char] + rest),
            None => None,
        }
    }
}

/// An Unreal string: a 32-bit signed length, then that many bytes (positive
/// length, Latin-1) or that many UTF-16 code units (negative length). The
/// count includes the terminating NUL, which is not part of the value.
pub open spec fn spec_read_fstring(d: Seq<u8>, p: int) -> Result<(Seq<char>, int), HeaderError> {
    match spec_read_u32(d, p) {
        Err(e) => Err(e),
        Ok((raw, q)) => if raw == 0 {
            Ok((Seq::empty(), q))
        } else if raw < 0x8000_0000 {
            let n = raw as int;
            if q + n <= d.len() {
                Ok((latin1_chars(d.subrange(q, q + n - 1)), q + n))
            } else {
                Err(HeaderError::UnexpectedEnd)
            }
        } else {
            let n = 0x1_0000_0000 - raw as int;
            if q + 2 * n <= d.len() {
                match decode_utf16(le_u16_units(d, q, n - 1)) {
                    Some(s) => Ok((s, q + 2 * n)),
                    None => Err(HeaderError::InvalidString),
                }
            } else {
                Err(HeaderError::UnexpectedEnd)
            }
        },
    }
}

/// Wraps `Option::map` of a prefix: `None` stays `None`, `Some(t)` becomes `Some(prefix + t)`.
pub open spec fn prepend_decoded(prefix: Seq<char>, rest: Option<Seq<char>>) -> Option<Seq<char>> {
    match rest {
        Some(t) => Some(prefix + t),
        None => None,
    }
}

/// A successful read of a 32-bit value gives the same value and position
/// when more bytes follow, and ends inside the buffer.
pub proof fn lemma_read_u32_extend(d: Seq<u8>, e: Seq<u8>, p: int)
    requires
        spec_read_u32(d, p) is Ok,
    ensures
        spec_read_u32(d + e, p) == spec_read_u32(d, p),
        spec_read_u32(d, p)->Ok_0.1 <= d.len(),
{
    let de = d + e;
    assert(de[p] == d[p] && de[p + 1] == d[p + 1] && de[p + 2] == d[p + 2] && de[p + 3] == d[p + 3]);
}

pub proof fn lemma_read_u8_extend(d: Seq<u8>, e: Seq<u8>, p: int)
    requires
        spec_read_u8(d, p) is Ok,
    ensures
        spec_read_u8(d + e, p) == spec_read_u8(d, p),
        spec_read_u8(d, p)->Ok_0.1 <= d.len(),
{
    assert((d + e)[p] == d[p]);
}

pub proof fn lemma_read_u64_extend(d: Seq<u8>, e: Seq<u8>, p: int)
    requires
        spec_read_u64(d, p) is Ok,
    ensures
        spec_read_u64(d + e, p) == spec_read_u64(d, p),
        spec_read_u64(d, p)->Ok_0.1 <= d.len(),
{
    let de = d + e;
    assert forall|i: int| p <= i < p + 8 implies de[i] == d[i] by {}
    assert(le_u32_value(de, p) == le_u32_value(d, p));
    assert(le_u32_value(de, p + 4) == le_u32_value(d, p + 4));
}

pub proof fn lemma_read_bool_u32_extend(d: Seq<u8>, e: Seq<u8>, p: int)
    requires
        spec_read_bool_u32(d, p) is Ok,
    ensures
        spec_read_bool_u32(d + e, p) == spec_read_bool_u32(d, p),
        spec_read_bool_u32(d, p)->Ok_0.1 <= d.len(),
{
    lemma_read_u32_extend(d, e, p);
}

pub proof fn lemma_confirm_u32_extend(d: Seq<u8>, e: Seq<u8>, p: int, expected: u32)
    requires
        spec_confirm_u32(d, p, expected) is Ok,
    ensures
        spec_confirm_u32(d + e, p, expected) == spec_confirm_u32(d, p, expected),
        spec_confirm_u32(d, p, expected)->Ok_0 <= d.len(),
{
    lemma_read_u32_extend(d, e, p);
}

pub proof fn lemma_read_fstring_extend(d: Seq<u8>, e: Seq<u8>, p: int)
    requires
        spec_read_fstring(d, p) is Ok,
    ensures
        spec_read_fstring(d + e, p) == spec_read_fstring(d, p),
        spec_read_fstring(d, p)->Ok_0.1 <= d.len(),
{
    lemma_read_u32_extend(d, e, p);
    let de = d + e;
    let (raw, q) = spec_read_u32(d, p)->Ok_0;
    if raw != 0 {
        if raw < 0x8000_0000 {
            let n = raw as int;
            assert(de.subrange(q, q + n - 1) =~= d.subrange(q, q + n - 1));
        } else {
            let n = 0x1_0000_0000 - raw as int;
            assert(le_u16_units(de, q, n - 1) =~= le_u16_units(d, q, n - 1));
        }
    }
}

/// `char::from_u32` of std: `Some` exactly for Unicode scalar values, holding that value.
#[verifier::external_body]
fn char_from_u32(v: u32) -> (res: Option<char>)
    ensures
        res is Some <==> is_scalar(v),
        res matches Some(c) ==> c as u32 == v,
{
    char::from_u32(v)
}

/// `String::push` of std: appends one character.
#[verifier::external_body]
pub(crate) fn push_char(s: &mut String, c: char)
    ensures
        final(s)@ == old(s)@.push(c),
{
    s.push(c);
}

/// A read position in a byte buffer.
pub struct Cursor<'a> {
    pub data: &'a [u8],
    pub pos: usize,
}

impl<'a> Cursor<'a> {
    pub fn new(data: &'a [u8], pos: usize) -> (c: Cursor<'a>)
        ensures
            c.data@ == data@,
            c.pos == pos,
    {
        Cursor { data, pos }
    }

    pub fn u8(&mut self) -> (r: Result<u8, HeaderError>)
        requires
            old(self).pos <= old(self).data@.len(),
        ensures
            final(self).data@ == old(self).data@,
            final(self).pos <= final(self).data@.len(),
            match spec_read_u8(old(self).data@, old(self).pos as int) {
                Ok((v, q)) => r == Ok::<u8, HeaderError>(v) && final(self).pos == q,
                Err(e) => r == Err::<u8, HeaderError>(e),
            },
    {
        if self.data.len() - self.pos < 1 {
            return Err(HeaderError::UnexpectedEnd);
        }
        let v = self.data[self.pos];
        self.pos = self.pos + 1;
        Ok(v)
    }

    pub fn u32(&mut self) -> (r: Result<u32, HeaderError>)
        requires
            old(self).pos <= old(self).data@.len(),
        ensures
            final(self).data@ == old(self).data@,
            final(self).pos <= final(self).data@.len(),
            match spec_read_u32(old(self).data@, old(self).pos as int) {
                Ok((v, q)) => r == Ok::<u32, HeaderError>(v) && final(self).pos == q,
                Err(e) => r == Err::<u32, HeaderError>(e),
            },
    {
        if self.data.len() - self.pos < 4 {
            return Err(HeaderError::UnexpectedEnd);
        }
        let p = self.pos;
        let v: u32 = self.data[p] as u32 + self.data[p + 1] as u32 * 0x100 + self.data[p + 2] as u32
            * 0x1_0000 + self.data[p + 3] as u32 * 0x100_0000;
        self.pos = p + 4;
        Ok(v)
    }

    pub fn u64(&mut self) -> (r: Result<u64, HeaderError>)
        requires
            old(self).pos <= old(self).data@.len(),
        ensures
            final(self).data@ == old(self).data@,
            final(self).pos <= final(self).data@.len(),
            match spec_read_u64(old(self).data@, old(self).pos as int) {
                Ok((v, q)) => r == Ok::<u64, HeaderError>(v) && final(self).pos == q,
                Err(e) => r == Err::<u64, HeaderError>(e),
            },
    {
        if self.data.len() - self.pos < 8 {
            return Err(HeaderError::UnexpectedEnd);
        }
        let low = self.u32();
        let high = self.u32();
        match (low, high) {
            (Ok(low), Ok(high)) => Ok(low as u64 + high as u64 * 0x1_0000_0000),
            _ => Err(HeaderError::UnexpectedEnd),
        }
    }

    pub fn bool_u32(&mut self) -> (r: Result<bool, HeaderError>)
        requires
            old(self).pos <= old(self).data@.len(),
        ensures
            final(self).data@ == old(self).data@,
            final(self).pos <= final(self).data@.len(),
            match spec_read_bool_u32(old(self).data@, old(self).pos as int) {
                Ok((v, q)) => r == Ok::<bool, HeaderError>(v) && final(self).pos == q,
                Err(e) => r == Err::<bool, HeaderError>(e),
            },
    {
        let v = self.u32()?;
        if v == 0 {
            Ok(false)
        } else if v == 1 {
            Ok(true)
        } else {
            Err(HeaderError::InvalidBool(v))
        }
    }

    pub fn confirm_u32(&mut self, expected: u32) -> (r: Result<(), HeaderError>)
        requires
            old(self).pos <= old(self).data@.len(),
        ensures
            final(self).data@ == old(self).data@,
            final(self).pos <= final(self).data@.len(),
            match spec_confirm_u32(old(self).data@, old(self).pos as int, expected) {
                Ok(q) => r == Ok::<(), HeaderError>(()) && final(self).pos == q,
                Err(e) => r == Err::<(), HeaderError>(e),
            },
    {
        let v = self.u32()?;
        if v == expected {
            Ok(())
        } else {
            Err(HeaderError::UnexpectedValue { expected, found: v })
        }
    }

    /// Reads an Unreal string (see `spec_read_fstring`).
    pub fn string_owned(&mut self) -> (r: Result<String, HeaderError>)
        requires
            old(self).pos <= old(self).data@.len(),
        ensures
            final(self).data@ == old(self).data@,
            final(self).pos <= final(self).data@.len(),
            match spec_read_fstring(old(self).data@, old(self).pos as int) {
                Ok((s, q)) => r matches Ok(v) && v@ == s && final(self).pos == q,
                Err(e) => r == Err::<String, HeaderError>(e),
            },
    {
        let raw = self.u32()?;
        let q = self.pos;
        if raw == 0 {
            return Ok(String::new());
        }
        if raw < 0x8000_0000 {
            if ((self.data.len() - q) as u64) < raw as u64 {
                return Err(HeaderError::UnexpectedEnd);
            }
            let n = raw as usize;
            let s = latin1_string(self.data, q, q + n - 1);
            self.pos = q + n;
            Ok(s)
        } else {
            let n: u64 = 0x1_0000_0000u64 - raw as u64;
            if ((self.data.len() - q) as u64) / 2 < n {
                return Err(HeaderError::UnexpectedEnd);
            }
            let units = (n - 1) as usize;
            let decoded = utf16_le_string(self.data, q, units);
            match decoded {
                Some(s) => {
                    self.pos = q + 2 * (n as usize);
                    Ok(s)
                },
                None => Err(HeaderError::InvalidString),
            }
        }
    }
}

/// The bytes `data[start..end]` as Latin-1 characters.
fn latin1_string(data: &[u8], start: usize, end: usize) -> (s: String)
    requires
        start <= end <= data@.len(),
    ensures
        s@ == latin1_chars(data@.subrange(start as int, end as int)),
{
    let mut s = String::new();
    let mut i = start;
    while i < end
        invariant
            start <= i <= end <= data@.len(),
            s@ == latin1_chars(data@.subrange(start as int, i as int)),
        decreases end - i,
    {
        push_char(&mut s, data[i] as char);
        i = i + 1;
        assert(s@ =~= latin1_chars(data@.subrange(start as int, i as int)));
    }
    s
}

proof fn lemma_decode_step_single(u: Seq<u16>, i: int)
    requires
        0 <= i < u.len(),
        !is_high_surrogate(u[i]),
        !is_low_surrogate(u[i]),
    ensures
        decode_utf16(u.skip(i)) == prepend_decoded(
            seq![(u[i] as u32) as char],
            decode_utf16(u.skip(i + 1)),
        ),
{
    assert(u.skip(i).skip(1) =~= u.skip(i + 1));
    assert(u.skip(i)[0] == u[i]);
}

proof fn lemma_decode_step_pair(u: Seq<u16>, i: int)
    requires
        0 <= i,
        i + 1 < u.len(),
        is_high_surrogate(u[i]),
        is_low_surrogate(u[i + 1]),
    ensures
        decode_utf16(u.skip(i)) == prepend_decoded(
            seq![surrogate_pair_value(u[i], u[i + 1]) as char],
            decode_utf16(u.skip(i + 2)),
        ),
{
    assert(u.skip(i).skip(2) =~= u.skip(i + 2));
    assert(u.skip(i)[0] == u[i]);
    assert(u.skip(i)[1] == u[i + 1]);
}

proof fn lemma_prepend_push(out: Seq<char>, c: char, rest: Option<Seq<char>>)
    ensures
        prepend_decoded(out, prepend_decoded(seq![c], rest)) == prepend_decoded(out.push(c), rest),
{
    if let Some(t) = rest {
        assert(out + (seq![c] + t) =~= out.push(c) + t);
    }
}

/// Reads one little-endian code unit at byte offset `p`.
fn unit_at(data: &[u8], p: usize) -> (u: u16)
    requires
        p + 2 <= data@.len(),
    ensures
        u == (data@[p as int] as int + data@[p + 1] as int * 0x100) as u16,
{
    data[p] as u16 + data[p + 1] as u16 * 0x100
}

/// Decodes `count` little-endian UTF-16 code units from `start` on.
fn utf16_le_string(data: &[u8], start: usize, count: usize) -> (r: Option<String>)
    requires
        start + 2 * count <= data@.len(),
    ensures
        match decode_utf16(le_u16_units(data@, start as int, count as int)) {
            Some(s) => r matches Some(v) && v@ == s,
            None => r is None,
        },
{
    let ghost u = le_u16_units(data@, start as int, count as int);
    let total = data.len();
    let mut s = String::new();
    let mut i: usize = 0;
    assert(u.skip(0) =~= u);
    while i < count
        invariant
            i <= count,
            start + 2 * count <= data@.len(),
            total == data@.len(),
            u == le_u16_units(data@, start as int, count as int),
            decode_utf16(u) == prepend_decoded(s@, decode_utf16(u.skip(i as int))),
        decreases count - i,
    {
        let unit = unit_at(data, start + 2 * i);
        assert(unit == u[i as int]);
        if 0xD800 <= unit && unit <= 0xDBFF {
            if i + 1 < count {
                let next = unit_at(data, start + 2 * (i + 1));
                assert(next == u[i + 1]);
                if 0xDC00 <= next && next <= 0xDFFF {
                    let v: u32 = 0x1_0000 + (unit as u32 - 0xD800) * 0x400 + (next as u32 - 0xDC00);
                    proof {
                        lemma_decode_step_pair(u, i as int);
                        lemma_prepend_push(s@, surrogate_pair_value(unit, next) as char, decode_utf16(u.skip(i + 2)));
                    }
                    match char_from_u32(v) {
                        Some(c) => {
                            proof {
                                char_u32_cast(c, v);
                            }
                            push_char(&mut s, c);
                        },
                        None => {
                            return None;
                        },
                    }
                    i = i + 2;
                } else {
                    proof {
                        assert(u.skip(i as int)[0] == u[i as int]);
                        assert(u.skip(i as int)[1] == u[i + 1]);
                    }
                    return None;
                }
            } else {
                proof {
                    assert(u.skip(i as int)[0] == u[i as int]);
                }
                return None;
            }
        } else if 0xDC00 <= unit && unit <= 0xDFFF {
            proof {
                assert(u.skip(i as int)[0] == u[i as int]);
            }
            return None;
        } else {
            let v: u32 = unit as u32;
            proof {
                lemma_decode_step_single(u, i as int);
                lemma_prepend_push(s@, (unit as u32) as char, decode_utf16(u.skip(i + 1)));
            }
            match char_from_u32(v) {
                Some(c) => {
                    proof {
                        char_u32_cast(c, v);
                    }
                    push_char(&mut s, c);
                },
                None => {
                    return None;
                },
            }
            i = i + 1;
        }
    }
    assert(u.skip(count as int) =~= Seq::<u16>::empty());
    assert(s@ + Seq::<char>::empty() =~= s@);
    Some(s)
}

} // verus!
