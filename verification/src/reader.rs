//! Typed little-endian reads over an in-memory byte buffer.
//!
//! The reader owns the container's bytes and a cursor. Every read either
//! consumes exactly its declared number of bytes or fails with an I/O error
//! and reports how the cursor moved; the peek variants restore the cursor
//! exactly, on success and on failure alike.

use vstd::prelude::*;

use crate::errors::EddsError;

verus! {

/// The value of two bytes at `i`, read little-endian.
pub open spec fn le16(d: Seq<u8>, i: int) -> int {
    d[i] + 0x100 * d[i + 1]
}

/// The value of three bytes at `i`, read little-endian.
pub open spec fn le24(d: Seq<u8>, i: int) -> int {
    d[i] + 0x100 * d[i + 1] + 0x10000 * d[i + 2]
}

/// The value of four bytes at `i`, read little-endian.
pub open spec fn le32(d: Seq<u8>, i: int) -> int {
    d[i] + 0x100 * d[i + 1] + 0x10000 * d[i + 2] + 0x1000000 * d[i + 3]
}

/// The signed reading of the same four bytes: two's complement.
pub open spec fn le32_signed(d: Seq<u8>, i: int) -> int {
    if le32(d, i) < 0x8000_0000 {
        le32(d, i)
    } else {
        le32(d, i) - 0x1_0000_0000
    }
}

/// What one continuation byte adds to a compressed integer: the byte minus
/// one, times 128, with both steps wrapping at 8 bits as the format demands.
pub open spec fn cint_step(b: u8) -> int {
    (((b + 255) % 0x100) * 0x80) % 0x100
}

/// Continuation bytes of a compressed integer, starting at `i` after a byte
/// whose top bit was set: each byte adds `cint_step` (wrapping at 32 bits),
/// and the first byte with a clear top bit ends the run. `None` when the
/// buffer ends first. Returns the value and the position after the run.
pub open spec fn cint_rest(d: Seq<u8>, i: int, acc: int) -> Option<(int, int)>
    decreases d.len() - i,
{
    if i < 0 || i >= d.len() {
        None
    } else {
        let acc2 = (acc + cint_step(d[i])) % 0x1_0000_0000;
        if d[i] & 0x80 == 0 {
            Some((acc2, i + 1))
        } else {
            cint_rest(d, i + 1, acc2)
        }
    }
}

/// The compressed integer beginning at `pos`: the first byte is the initial
/// accumulator, and its top bit says whether continuation bytes follow.
pub open spec fn cint_at(d: Seq<u8>, pos: int) -> Option<(int, int)> {
    if pos < 0 || pos >= d.len() {
        None
    } else if d[pos] & 0x80 == 0 {
        Some((d[pos] as int, pos + 1))
    } else {
        cint_rest(d, pos + 1, d[pos] as int)
    }
}

/// A zeroed byte buffer of the given length.
pub(crate) fn zero_vec(n: usize) -> (r: Vec<u8>)
    ensures
        r@.len() == n,
{
    let mut v: Vec<u8> = Vec::new();
    let mut i: usize = 0;
    while i < n
        invariant
            i <= n,
            v@.len() == i,
        decreases n - i,
    {
        v.push(0);
        i = i + 1;
    }
    v
}

/// A cursor over the container's bytes.
pub struct Reader {
    pub data: Vec<u8>,
    pub pos: usize,
}

impl Reader {
    /// The cursor never stands past the end of the buffer.
    pub open spec fn wf(self) -> bool {
        self.pos <= self.data.len()
    }

    /// Whether `n` more bytes can be read from the cursor.
    pub open spec fn can_read(self, n: int) -> bool {
        self.pos + n <= self.data.len()
    }

    pub fn new(data: Vec<u8>) -> (r: Reader)
        ensures
            r.wf(),
            r.data == data,
            r.pos == 0,
    {
        Reader { data, pos: 0 }
    }

    pub fn read_u8(&mut self) -> (r: Result<u8, EddsError>)
        requires
            old(self).wf(),
        ensures
            final(self).wf(),
            final(self).data == old(self).data,
            r is Ok <==> old(self).can_read(1),
            r matches Ok(b) ==> b == old(self).data[old(self).pos as int] && final(self).pos
                == old(self).pos + 1,
            r is Err ==> r == Err::<u8, EddsError>(EddsError::Io) && final(self).pos == old(self).pos,
    {
        if self.pos < self.data.len() {
            let b = self.data[self.pos];
            self.pos = self.pos + 1;
            Ok(b)
        } else {
            Err(EddsError::Io)
        }
    }

    pub fn read_bool(&mut self) -> (r: Result<bool, EddsError>)
        requires
            old(self).wf(),
        ensures
            final(self).wf(),
            final(self).data == old(self).data,
            r is Ok <==> old(self).can_read(1),
            r matches Ok(b) ==> b == (old(self).data[old(self).pos as int] != 0) && final(self).pos == old(self).pos + 1,
            r is Err ==> r == Err::<bool, EddsError>(EddsError::Io) && final(self).pos == old(self).pos,
    {
        match self.read_u8() {
            Ok(b) => Ok(b != 0),
            Err(e) => Err(e),
        }
    }

    pub fn read_u16(&mut self) -> (r: Result<u16, EddsError>)
        requires
            old(self).wf(),
        ensures
            final(self).wf(),
            final(self).data == old(self).data,
            r is Ok <==> old(self).can_read(2),
            r matches Ok(v) ==> v == le16(old(self).data@, old(self).pos as int) && final(self).pos == old(self).pos + 2,
            r is Err ==> r == Err::<u16, EddsError>(EddsError::Io) && final(self).pos == old(self).pos,
    {
        if self.data.len() - self.pos >= 2 {
            let b0 = self.data[self.pos];
            let b1 = self.data[self.pos + 1];
            self.pos = self.pos + 2;
            Ok(b0 as u16 + 0x100 * b1 as u16)
        } else {
            Err(EddsError::Io)
        }
    }

    pub fn read_u24(&mut self) -> (r: Result<u32, EddsError>)
        requires
            old(self).wf(),
        ensures
            final(self).wf(),
            final(self).data == old(self).data,
            r is Ok <==> old(self).can_read(3),
            r matches Ok(v) ==> v == le24(old(self).data@, old(self).pos as int) && final(self).pos == old(self).pos + 3,
            r is Err ==> r == Err::<u32, EddsError>(EddsError::Io) && final(self).pos == old(self).pos,
    {
        if self.data.len() - self.pos >= 3 {
            let b0 = self.data[self.pos];
            let b1 = self.data[self.pos + 1];
            let b2 = self.data[self.pos + 2];
            self.pos = self.pos + 3;
            Ok(b0 as u32 + 0x100 * b1 as u32 + 0x10000 * b2 as u32)
        } else {
            Err(EddsError::Io)
        }
    }

    pub fn read_u32(&mut self) -> (r: Result<u32, EddsError>)
        requires
            old(self).wf(),
        ensures
            final(self).wf(),
            final(self).data == old(self).data,
            r is Ok <==> old(self).can_read(4),
            r matches Ok(v) ==> v == le32(old(self).data@, old(self).pos as int) && final(self).pos == old(self).pos + 4,
            r is Err ==> r == Err::<u32, EddsError>(EddsError::Io) && final(self).pos == old(self).pos,
    {
        if self.data.len() - self.pos >= 4 {
            let b0 = self.data[self.pos];
            let b1 = self.data[self.pos + 1];
            let b2 = self.data[self.pos + 2];
            let b3 = self.data[self.pos + 3];
            self.pos = self.pos + 4;
            Ok(b0 as u32 + 0x100 * b1 as u32 + 0x10000 * b2 as u32 + 0x1000000 * b3 as u32)
        } else {
            Err(EddsError::Io)
        }
    }

    pub fn read_i32(&mut self) -> (r: Result<i32, EddsError>)
        requires
            old(self).wf(),
        ensures
            final(self).wf(),
            final(self).data == old(self).data,
            r is Ok <==> old(self).can_read(4),
            r matches Ok(v) ==> v == le32_signed(old(self).data@, old(self).pos as int) && final(self).pos == old(self).pos + 4,
            r is Err ==> r == Err::<i32, EddsError>(EddsError::Io) && final(self).pos == old(self).pos,
    {
        match self.read_u32() {
            Ok(v) => {
                let r: i32 = if v < 0x8000_0000 {
                    v as i32
                } else {
                    let m = (v - 0x8000_0000) as i32;
                    (m - 0x4000_0000) - 0x4000_0000
                };
                Ok(r)
            },
            Err(e) => Err(e),
        }
    }

    pub fn read_bytes(&mut self, size: usize) -> (r: Result<Vec<u8>, EddsError>)
        requires
            old(self).wf(),
        ensures
            final(self).wf(),
            final(self).data == old(self).data,
            r is Ok <==> old(self).can_read(size as int),
            r matches Ok(v) ==> v@ == old(self).data@.subrange(
                old(self).pos as int,
                old(self).pos + size,
            ) && final(self).pos == old(self).pos + size,
            r is Err ==> r == Err::<Vec<u8>, EddsError>(EddsError::Io) && final(self).pos == old(self).pos,
    {
        if size <= self.data.len() - self.pos {
            let mut v: Vec<u8> = Vec::new();
            let mut i: usize = 0;
            while i < size
                invariant
                    self.data == old(self).data,
                    self.pos == old(self).pos,
                    i <= size,
                    old(self).pos + size <= old(self).data.len(),
                    v@ == old(self).data@.subrange(old(self).pos as int, old(self).pos + i),
                decreases size - i,
            {
                v.push(self.data[self.pos + i]);
                i = i + 1;
                proof {
                    assert(v@ =~= old(self).data@.subrange(
                        old(self).pos as int,
                        old(self).pos + i,
                    ));
                }
            }
            self.pos = self.pos + size;
            Ok(v)
        } else {
            Err(EddsError::Io)
        }
    }

    /// The format's variable-length integer: the first byte starts the
    /// accumulator; while the most recent byte has its top bit set, another
    /// byte is read and adds that byte minus one, times 128, to the
    /// accumulator, all with wraparound-safe arithmetic.
    pub fn read_compressed_int(&mut self) -> (r: Result<u32, EddsError>)
        requires
            old(self).wf(),
        ensures
            final(self).wf(),
            final(self).data == old(self).data,
            r is Ok <==> cint_at(old(self).data@, old(self).pos as int) is Some,
            r matches Ok(v) ==> cint_at(old(self).data@, old(self).pos as int) matches Some(p)
                && v == p.0 && final(self).pos == p.1,
            r is Err ==> r == Err::<u32, EddsError>(EddsError::Io) && final(self).pos == old(self).data.len(),
    {
        let first = match self.read_u8() {
            Ok(b) => b,
            Err(_) => {
                return Err(EddsError::Io);
            },
        };
        let mut val: u8 = first;
        let mut ret: u32 = first as u32;
        while val & 0x80 != 0
            invariant
                self.wf(),
                self.data == old(self).data,
                self.pos >= 1,
                val & 0x80 != 0 ==> cint_at(old(self).data@, old(self).pos as int) == cint_rest(
                    self.data@,
                    self.pos as int,
                    ret as int,
                ),
                val & 0x80 == 0 ==> cint_at(old(self).data@, old(self).pos as int) == Some(
                    (ret as int, self.pos as int),
                ),
            decreases self.data.len() - self.pos + 1,
        {
            let b = match self.read_u8() {
                Ok(b) => b,
                Err(_) => {
                    return Err(EddsError::Io);
                },
            };
            val = b;
            ret = ret.wrapping_add(b.wrapping_sub(1).wrapping_mul(0x80) as u32);
            proof {
                assert(b.wrapping_sub(1).wrapping_mul(0x80) as int == cint_step(b));
            }
        }
        Ok(ret)
    }

    /// How many unread bytes the reader still holds.
    pub fn remaining(&self) -> (r: usize)
        requires
            self.wf(),
        ensures
            r == self.data.len() - self.pos,
    {
        self.data.len() - self.pos
    }

    pub fn peek_u8(&mut self) -> (r: Result<u8, EddsError>)
        requires
            old(self).wf(),
        ensures
            *final(self) == *old(self),
            r is Ok <==> old(self).can_read(1),
            r matches Ok(b) ==> b == old(self).data[old(self).pos as int],
            r is Err ==> r == Err::<u8, EddsError>(EddsError::Io),
    {
        let saved = self.pos;
        let r = self.read_u8();
        self.pos = saved;
        r
    }

    pub fn peek_u16(&mut self) -> (r: Result<u16, EddsError>)
        requires
            old(self).wf(),
        ensures
            *final(self) == *old(self),
            r is Ok <==> old(self).can_read(2),
            r matches Ok(v) ==> v == le16(old(self).data@, old(self).pos as int),
            r is Err ==> r == Err::<u16, EddsError>(EddsError::Io),
    {
        let saved = self.pos;
        let r = self.read_u16();
        self.pos = saved;
        r
    }
}


/// What strict UTF-8 decoding yields for the given bytes: the decoded
/// characters, or nothing when the bytes are not valid UTF-8.
pub uninterp spec fn utf8_decode(bytes: Seq<u8>) -> Option<Seq<char>>;

/// Relies on String::from_utf8: it succeeds exactly on valid UTF-8, and the
/// decoded characters depend on the bytes alone.
#[verifier::external_body]
fn string_from_utf8(bytes: Vec<u8>) -> (r: Option<String>)
    ensures
        r matches Some(s) ==> utf8_decode(bytes@) == Some(s@),
        r is None ==> utf8_decode(bytes@) is None,
{
    match String::from_utf8(bytes) {
        Ok(s) => Some(s),
        Err(_) => None,
    }
}

/// What lossy UTF-8 decoding yields for the given bytes: invalid sequences
/// become replacement characters.
pub uninterp spec fn utf8_lossy(bytes: Seq<u8>) -> Seq<char>;

/// Relies on String::from_utf8_lossy: the result depends on the bytes
/// alone, and bytes that are valid UTF-8 decode to exactly their strict
/// decoding.
#[verifier::external_body]
fn string_from_utf8_lossy(bytes: &[u8]) -> (r: String)
    ensures
        r@ == utf8_lossy(bytes@),
        utf8_decode(bytes@) matches Some(cs) ==> r@ == cs,
{
    String::from_utf8_lossy(bytes).into_owned()
}

/// The index of the first NUL byte at or after `i`, or the buffer length
/// when there is none.
pub open spec fn zt_end(d: Seq<u8>, i: int) -> int
    decreases d.len() - i,
{
    if i < 0 || i >= d.len() {
        d.len() as int
    } else if d[i] == 0 {
        i
    } else {
        zt_end(d, i + 1)
    }
}

impl Reader {
    /// Reads `size` bytes and strictly decodes them as UTF-8; bytes that
    /// are not valid UTF-8 are a text-decoding error, with the bytes
    /// consumed either way.
    pub fn read_string(&mut self, size: usize) -> (r: Result<String, EddsError>)
        requires
            old(self).wf(),
        ensures
            final(self).wf(),
            final(self).data == old(self).data,
            !old(self).can_read(size as int) ==> r == Err::<String, EddsError>(EddsError::Io)
                && final(self).pos == old(self).pos,
            old(self).can_read(size as int) ==> {
                let taken = old(self).data@.subrange(old(self).pos as int, old(self).pos + size);
                &&& final(self).pos == old(self).pos + size
                &&& (r matches Ok(s) ==> utf8_decode(taken) == Some(s@))
                &&& (r is Err ==> r == Err::<String, EddsError>(EddsError::Utf8) && utf8_decode(
                    taken,
                ) is None)
            },
    {
        let buf = match self.read_bytes(size) {
            Ok(b) => b,
            Err(e) => {
                return Err(e);
            },
        };
        match string_from_utf8(buf) {
            Some(s) => Ok(s),
            None => Err(EddsError::Utf8),
        }
    }

    /// Reads `size` bytes and decodes them as UTF-8, substituting
    /// replacement characters for invalid sequences.
    pub fn read_string_lossy(&mut self, size: usize) -> (r: Result<String, EddsError>)
        requires
            old(self).wf(),
        ensures
            final(self).wf(),
            final(self).data == old(self).data,
            r is Ok <==> old(self).can_read(size as int),
            r matches Ok(s) ==> s@ == utf8_lossy(
                old(self).data@.subrange(old(self).pos as int, old(self).pos + size),
            ) && final(self).pos == old(self).pos + size,
            r is Err ==> r == Err::<String, EddsError>(EddsError::Io) && final(self).pos == old(
                self,
            ).pos,
    {
        let buf = match self.read_bytes(size) {
            Ok(b) => b,
            Err(e) => {
                return Err(e);
            },
        };
        Ok(string_from_utf8_lossy(buf.as_slice()))
    }

    /// Reads through the next NUL byte — or through the end of the buffer —
    /// drops the final byte of what was read, and strictly decodes the
    /// rest; bytes that are not valid UTF-8 are a text-decoding error.
    pub fn read_string_zt(&mut self) -> (r: Result<String, EddsError>)
        requires
            old(self).wf(),
        ensures
            final(self).wf(),
            final(self).data == old(self).data,
            ({
                let d = old(self).data@;
                let t = zt_end(d, old(self).pos as int);
                let taken = if t < d.len() {
                    d.subrange(old(self).pos as int, t)
                } else if d.len() > old(self).pos {
                    d.subrange(old(self).pos as int, d.len() - 1)
                } else {
                    Seq::empty()
                };
                &&& final(self).pos == (if t < d.len() {
                    t + 1
                } else {
                    d.len() as int
                })
                &&& (r matches Ok(s) ==> utf8_decode(taken) == Some(s@))
                &&& (r is Err ==> r == Err::<String, EddsError>(EddsError::Utf8) && utf8_decode(
                    taken,
                ) is None)
            }),
    {
        let ghost d = self.data@;
        let ghost p0 = self.pos as int;
        let start = self.pos;
        let mut t = self.pos;
        while t < self.data.len() && self.data[t] != 0
            invariant
                self == old(self),
                self.wf(),
                start == self.pos,
                self.pos <= t <= self.data.len(),
                zt_end(self.data@, self.pos as int) == zt_end(self.data@, t as int),
            decreases self.data.len() - t,
        {
            t = t + 1;
        }
        let mut buf: Vec<u8>;
        if t < self.data.len() {
            buf = match self.read_bytes(t - start) {
                Ok(b) => b,
                Err(_) => {
                    return Err(EddsError::Io);
                },
            };
            self.pos = t + 1;
        } else if self.data.len() > self.pos {
            buf = match self.read_bytes(self.data.len() - start - 1) {
                Ok(b) => b,
                Err(_) => {
                    return Err(EddsError::Io);
                },
            };
            self.pos = self.data.len();
        } else {
            buf = Vec::new();
            proof {
                assert(buf@ =~= Seq::<u8>::empty());
            }
        }
        match string_from_utf8(buf) {
            Some(s) => Ok(s),
            None => Err(EddsError::Utf8),
        }
    }

    /// Reads a string of `size` bytes ahead of the cursor and restores the
    /// cursor exactly, on success and on failure alike.
    pub fn peek_string(&mut self, size: usize) -> (r: Result<String, EddsError>)
        requires
            old(self).wf(),
        ensures
            *final(self) == *old(self),
            !old(self).can_read(size as int) ==> r == Err::<String, EddsError>(EddsError::Io),
            old(self).can_read(size as int) ==> {
                let taken = old(self).data@.subrange(old(self).pos as int, old(self).pos + size);
                &&& (r matches Ok(s) ==> utf8_decode(taken) == Some(s@))
                &&& (r is Err ==> r == Err::<String, EddsError>(EddsError::Utf8) && utf8_decode(
                    taken,
                ) is None)
            },
    {
        let saved = self.pos;
        let r = self.read_string(size);
        self.pos = saved;
        r
    }

    /// Reads a lossily decoded string of `size` bytes ahead of the cursor
    /// and restores the cursor exactly, on success and on failure alike.
    pub fn peek_string_lossy(&mut self, size: usize) -> (r: Result<String, EddsError>)
        requires
            old(self).wf(),
        ensures
            *final(self) == *old(self),
            r is Ok <==> old(self).can_read(size as int),
            r matches Ok(s) ==> s@ == utf8_lossy(
                old(self).data@.subrange(old(self).pos as int, old(self).pos + size),
            ),
            r is Err ==> r == Err::<String, EddsError>(EddsError::Io),
    {
        let saved = self.pos;
        let r = self.read_string_lossy(size);
        self.pos = saved;
        r
    }
}


} // verus!
