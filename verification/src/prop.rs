//! Decoding of property responses returned by the display server.
//!
//! A property read yields a server-allocated buffer of raw bytes, an actual
//! type atom, and an element bit-width. The width decides how the bytes are
//! reinterpreted as a sequence of window identifiers: 8-bit elements occupy
//! one byte each, 16-bit elements two bytes, and 32-bit elements one native
//! word of eight bytes. Elements are read least-significant byte first.
//!
//! Every buffer acquired from the server must be released exactly once, on
//! every control-flow path; the [`Ledger`](crate::connection::Ledger) counts
//! acquisitions and releases so that this discipline is stated and proved.

use vstd::prelude::*;

use crate::NotSupported;
use crate::connection::Ledger;

verus! {

/// The atom that the server assigns to the window-identifier property type.
pub const XA_WINDOW: u64 = 33;

/// Whether an element bit-width is one the decoder understands.
pub open spec fn format_supported(format: u32) -> bool {
    format == 8 || format == 16 || format == 32
}

/// Number of bytes one element occupies at the given bit-width.
/// A 32-bit element is stored as one native word of eight bytes.
pub open spec fn elem_bytes(format: u32) -> nat {
    if format == 8 {
        1
    } else if format == 16 {
        2
    } else {
        8
    }
}

/// Number of whole identifiers a buffer of these bytes holds at the given
/// bit-width; a trailing partial element counts for nothing.
pub open spec fn item_count(data: Seq<u8>, format: u32) -> nat {
    data.len() / elem_bytes(format)
}

/// The identifier at position `i` of the buffer, read least-significant
/// byte first.
pub open spec fn id_at(data: Seq<u8>, format: u32, i: int) -> int {
    if format == 8 {
        data[i] as int
    } else if format == 16 {
        data[2 * i] + 0x100 * data[2 * i + 1]
    } else {
        data[8 * i]
            + 0x100 * data[8 * i + 1]
            + 0x1_0000 * data[8 * i + 2]
            + 0x100_0000 * data[8 * i + 3]
            + 0x1_0000_0000 * data[8 * i + 4]
            + 0x100_0000_0000 * data[8 * i + 5]
            + 0x1_0000_0000_0000 * data[8 * i + 6]
            + 0x100_0000_0000_0000 * data[8 * i + 7]
    }
}

/// A property response whose raw buffer has been taken over from the server:
/// the actual type atom the server reported, the element bit-width, and the
/// raw bytes. The acquisition was counted in a [`Ledger`]; the buffer must be
/// given back through [`PropBuffer::release`] or one of the decoding
/// operations, each of which releases it on every path.
pub struct PropBuffer {
    /// The type atom the server reported for the property.
    pub actual_type: u64,
    /// The element bit-width the server reported (8, 16 or 32 when valid).
    pub format: u32,
    /// The raw bytes of the server buffer.
    pub data: Vec<u8>,
}

impl PropBuffer {
    /// Takes over a server-allocated property buffer, counting the
    /// acquisition in the ledger.
    pub fn acquire(actual_type: u64, format: u32, data: Vec<u8>, ledger: &mut Ledger) -> (buf:
        PropBuffer)
        requires
            old(ledger).wf(),
            old(ledger).allocs < u64::MAX,
        ensures
            *final(ledger) == old(ledger).after_alloc(),
            final(ledger).wf(),
            buf.actual_type == actual_type,
            buf.format == format,
            buf.data == data,
    {
        ledger.count_alloc();
        PropBuffer { actual_type, format, data }
    }

    /// Releases the buffer, counting the release in the ledger. Consuming
    /// the buffer stands for handing its memory back to the server library.
    pub fn release(self, ledger: &mut Ledger)
        requires
            old(ledger).wf(),
            old(ledger).frees < old(ledger).allocs,
        ensures
            *final(ledger) == old(ledger).after_free(),
            final(ledger).wf(),
    {
        ledger.count_free();
    }
}

/// Reads the identifier at position `i` out of the raw bytes at the given
/// bit-width.
pub(crate) fn decode_one(data: &Vec<u8>, format: u32, i: usize) -> (id: u64)
    requires
        format_supported(format),
        (i + 1) * elem_bytes(format) <= data@.len(),
    ensures
        id == id_at(data@, format, i as int),
{
    proof {
        assert(data@.len() == vstd::std_specs::vec::spec_vec_len(data));
    }
    if format == 8 {
        data[i] as u64
    } else if format == 16 {
        proof {
            assert((i + 1) * elem_bytes(format) == 2 * i + 2) by (nonlinear_arith)
                requires
                    elem_bytes(format) == 2,
                    i >= 0,
            ;
        }
        let lo: u64 = data[2 * i] as u64;
        let hi: u64 = data[2 * i + 1] as u64;
        lo + 0x100 * hi
    } else {
        proof {
            assert((i + 1) * elem_bytes(format) == 8 * i + 8) by (nonlinear_arith)
                requires
                    elem_bytes(format) == 8,
                    i >= 0,
            ;
        }
        let b0: u64 = data[8 * i] as u64;
        let b1: u64 = data[8 * i + 1] as u64;
        let b2: u64 = data[8 * i + 2] as u64;
        let b3: u64 = data[8 * i + 3] as u64;
        let b4: u64 = data[8 * i + 4] as u64;
        let b5: u64 = data[8 * i + 5] as u64;
        let b6: u64 = data[8 * i + 6] as u64;
        let b7: u64 = data[8 * i + 7] as u64;
        b0 + 0x100 * b1 + 0x1_0000 * b2 + 0x100_0000 * b3 + 0x1_0000_0000 * b4 + 0x100_0000_0000
            * b5 + 0x1_0000_0000_0000 * b6 + 0x100_0000_0000_0000 * b7
    }
}

/// Decodes the whole buffer into window identifiers, preserving the item
/// count and the server-provided order. Any bit-width other than 8, 16 or
/// 32 is an unsupported encoding.
pub fn decode_ids(data: &Vec<u8>, format: u32) -> (r: Result<Vec<u64>, NotSupported>)
    ensures
        r is Ok <==> format_supported(format),
        r matches Ok(ids) ==> ids@.len() == item_count(data@, format) && (forall|i: int|
            0 <= i < ids@.len() ==> ids@[i] == id_at(data@, format, i)),
{
    if !(format == 8 || format == 16 || format == 32) {
        return Err(NotSupported);
    }
    let size: usize = if format == 8 {
        1
    } else if format == 16 {
        2
    } else {
        8
    };
    let n: usize = data.len() / size;
    proof {
        vstd::arithmetic::div_mod::lemma_fundamental_div_mod(data@.len() as int, size as int);
        vstd::arithmetic::div_mod::lemma_mod_bound(data@.len() as int, size as int);
    }
    let mut ids: Vec<u64> = Vec::new();
    let mut k: usize = 0;
    while k < n
        invariant
            format_supported(format),
            size == elem_bytes(format),
            n == item_count(data@, format),
            size * n <= data@.len(),
            k <= n,
            ids@.len() == k,
            forall|i: int| 0 <= i < k ==> ids@[i] == id_at(data@, format, i),
        decreases n - k,
    {
        proof {
            vstd::arithmetic::mul::lemma_mul_inequality(k + 1, n as int, size as int);
            vstd::arithmetic::mul::lemma_mul_is_commutative(n as int, size as int);
        }
        let id = decode_one(data, format, k);
        ids.push(id);
        k = k + 1;
    }
    Ok(ids)
}

} // verus!
