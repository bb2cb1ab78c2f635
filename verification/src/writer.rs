//! The byte-sink abstraction and the typed write facade built on it.
//!
//! A [`ByteWriter`] is an append-only sink: two required primitives append a
//! byte or a byte sequence, and the provided methods layer typed writes on
//! top of them — booleans as one byte, fixed-width integers in little-endian
//! order, `usize` values in the vint64 variable-length encoding, and a
//! generic dispatch to any [`Serializable`] value.

use vstd::prelude::*;
use crate::vint::encoded_len;
use crate::vint::le_bytes;
use crate::vint::vint_enc;
use crate::vint::vint_len;
use crate::vint::vint_marked;

verus! {

/// The low `n` bytes of `x` as a vector, least significant first.
fn le_bytes_vec(x: u64, n: usize) -> (r: Vec<u8>)
    requires
        n <= 8,
    ensures
        r@ == le_bytes(x, n as int),
{
    let mut r: Vec<u8> = Vec::new();
    let mut i: usize = 0;
    while i < n
        invariant
            i <= n <= 8,
            r@ == le_bytes(x, i as int),
        decreases n - i,
    {
        let b: u8 = ((x >> ((8 * i) as u64)) & 0xff) as u8;
        r.push(b);
        proof {
            assert(le_bytes(x, i + 1) =~= le_bytes(x, i as int).push(b));
        }
        i = i + 1;
    }
    r
}

/// A value that can write itself into a byte sink.
pub trait Serializable {
    /// The byte sequence this value serializes to.
    spec fn serialized(&self) -> Seq<u8>;

    /// Appends this value's serialized form to `target`.
    fn write_into<W: ByteWriter>(&self, target: &mut W)
        ensures
            final(target).sink() == old(target).sink() + self.serialized(),
    ;
}

/// Defines how primitive values are to be written into `Self`.
///
/// Every operation appends to the bytes already held and never changes
/// them: each postcondition extends the old sink contents with the new
/// value's bytes.
pub trait ByteWriter: Sized {
    /// The bytes this writer holds, in the order they were appended.
    spec fn sink(&self) -> Seq<u8>;

    /// Writes a single byte into `self`.
    fn write_u8(&mut self, value: u8)
        ensures
            final(self).sink() == old(self).sink().push(value),
    ;

    /// Writes a sequence of bytes into `self`.
    fn write_bytes(&mut self, values: &[u8])
        ensures
            final(self).sink() == old(self).sink() + values@,
    ;

    /// Writes a boolean value into `self`, as a single byte holding 1 for
    /// true and 0 for false.
    fn write_bool(&mut self, val: bool)
        ensures
            final(self).sink() == old(self).sink().push(
                if val {
                    1u8
                } else {
                    0u8
                },
            ),
    {
        self.write_u8(if val {
            1
        } else {
            0
        });
    }

    /// Writes a u16 value in little-endian byte order into `self`.
    fn write_u16(&mut self, value: u16)
        ensures
            final(self).sink() == old(self).sink() + le_bytes(value as u64, 2),
    {
        let bytes = le_bytes_vec(value as u64, 2);
        self.write_bytes(bytes.as_slice());
    }

    /// Writes a u32 value in little-endian byte order into `self`.
    fn write_u32(&mut self, value: u32)
        ensures
            final(self).sink() == old(self).sink() + le_bytes(value as u64, 4),
    {
        let bytes = le_bytes_vec(value as u64, 4);
        self.write_bytes(bytes.as_slice());
    }

    /// Writes a u64 value in little-endian byte order into `self`.
    fn write_u64(&mut self, value: u64)
        ensures
            final(self).sink() == old(self).sink() + le_bytes(value, 8),
    {
        let bytes = le_bytes_vec(value, 8);
        self.write_bytes(bytes.as_slice());
    }

    /// Writes a usize value in vint64 format into `self`.
    fn write_usize(&mut self, value: usize)
        ensures
            final(self).sink() == old(self).sink() + vint_enc(value as u64),
    {
        let v: u64 = value as u64;
        let length = encoded_len(value);
        if length == 9 {
            // the length byte is zero in this case
            self.write_u8(0);
            let bytes = le_bytes_vec(v, 8);
            self.write_bytes(bytes.as_slice());
            proof {
                assert(old(self).sink().push(0u8) + le_bytes(v, 8) =~= old(self).sink() + vint_enc(
                    v,
                ));
            }
        } else {
            let marked: u64 = ((v << 1) | 1) << ((length - 1) as u64);
            let bytes = le_bytes_vec(marked, length);
            self.write_bytes(bytes.as_slice());
        }
    }

}

/// The generic dispatch of the write facade, available on every byte
/// writer: it passes the sink through to the value's own serialization
/// logic, which is fully responsible for the byte layout.
pub trait WriteSerializable: ByteWriter {
    /// Writes a serializable value into `self`.
    fn write<S: Serializable>(&mut self, value: S)
        ensures
            final(self).sink() == old(self).sink() + value.serialized(),
    ;
}

impl<W: ByteWriter> WriteSerializable for W {
    fn write<S: Serializable>(&mut self, value: S) {
        value.write_into(self)
    }
}

/// The sink is append-only. Every facade operation leaves the sink equal
/// to the old contents followed by the new value's bytes, so after any
/// sequence of writes the bytes written earlier still stand, unchanged, at
/// the front of the sink.
pub proof fn lemma_sink_append_only(written: Seq<u8>, appended: Seq<u8>)
    ensures
        written.len() <= (written + appended).len(),
        (written + appended).subrange(0, written.len() as int) == written,
{
    assert((written + appended).subrange(0, written.len() as int) =~= written);
}

impl ByteWriter for Vec<u8> {
    open spec fn sink(&self) -> Seq<u8> {
        self@
    }

    fn write_u8(&mut self, value: u8) {
        self.push(value);
    }

    fn write_bytes(&mut self, values: &[u8]) {
        self.extend_from_slice(values);
        proof {
            assert(self@ =~= old(self)@ + values@);
        }
    }
}

/// A u64 serializes to its eight little-endian bytes.
impl Serializable for u64 {
    open spec fn serialized(&self) -> Seq<u8> {
        le_bytes(*self, 8)
    }

    fn write_into<W: ByteWriter>(&self, target: &mut W) {
        target.write_u64(*self);
    }
}

} // verus!
