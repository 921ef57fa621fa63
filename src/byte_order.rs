use crate::bindings::{native_u16_bytes, read_be_u16};
use crate::layout::ColorLayout;
use vstd::prelude::*;

verus! {

/// The order in which the bytes of a 16-bit sample are stored.
#[derive(Clone, Copy, Debug, PartialEq, Eq, Structural)]
pub enum ByteOrder {
    Little,
    Big,
}

/// The value of a 16-bit sample stored most significant byte first, as PNG stores it.
pub open spec fn be_value(b0: u8, b1: u8) -> int {
    b0 as int * 256 + b1 as int
}

/// The value of a 16-bit sample stored in the given byte order.
pub open spec fn value_in(order: ByteOrder, b0: u8, b1: u8) -> int {
    match order {
        ByteOrder::Little => b1 as int * 256 + b0 as int,
        ByteOrder::Big => b0 as int * 256 + b1 as int,
    }
}

/// The buffer with each complete pair of bytes, read big-endian, rewritten in
/// the given order. A trailing odd byte is kept.
pub open spec fn reordered(order: ByteOrder, data: Seq<u8>) -> Seq<u8> {
    Seq::new(
        data.len(),
        |i: int|
            if order == ByteOrder::Little && i < data.len() - data.len() % 2 {
                if i % 2 == 0 {
                    data[i + 1]
                } else {
                    data[i - 1]
                }
            } else {
                data[i]
            },
    )
}

/// The bytes of a decoded frame after endianness normalisation: 16-bit layouts
/// are rewritten in the host order, 8-bit layouts are left as they are.
pub open spec fn normalized(layout: ColorLayout, order: ByteOrder, data: Seq<u8>) -> Seq<u8> {
    if layout.is_16bit_spec() {
        reordered(order, data)
    } else {
        data
    }
}

/// Reading each sample of a normalised 16-bit buffer in the host order gives
/// back the value that the big-endian stream held, whatever the host order.
pub proof fn lemma_normalized_reads_back(order: ByteOrder, layout: ColorLayout, data: Seq<u8>, k: int)
    requires
        layout.is_16bit_spec(),
        0 <= k,
        2 * k + 1 < data.len(),
    ensures
        value_in(order, normalized(layout, order, data)[2 * k], normalized(layout, order, data)[2
            * k + 1]) == be_value(data[2 * k], data[2 * k + 1]),
        normalized(layout, order, data).len() == data.len(),
{
    assert(2 * k + 1 < data.len() - data.len() % 2);
}

/// The byte order of the machine running this code.
pub fn host_byte_order() -> (r: ByteOrder) {
    let (first, _second) = native_u16_bytes(0x0102);
    if first == 0x02 {
        ByteOrder::Little
    } else {
        ByteOrder::Big
    }
}

/// Rewrites the big-endian 16-bit samples of a decoded frame in the given
/// order; a buffer of an 8-bit layout is left untouched.
pub fn normalize_samples(buf: &mut Vec<u8>, layout: ColorLayout, order: ByteOrder)
    ensures
        final(buf)@ == normalized(layout, order, old(buf)@),
        forall|k: int|
            #![trigger old(buf)@[2 * k]]
            layout.is_16bit_spec() && 0 <= k && 2 * k + 1 < old(buf)@.len() ==> value_in(
                order,
                final(buf)@[2 * k],
                final(buf)@[2 * k + 1],
            ) == be_value(old(buf)@[2 * k], old(buf)@[2 * k + 1]),
{
    if !layout.is_16bit() {
        return;
    }
    let ghost orig = buf@;
    let n = buf.len();
    let pairs_end = n - n % 2;
    let mut i: usize = 0;
    while i < pairs_end
        invariant
            n == buf@.len(),
            n == orig.len(),
            pairs_end == n - n % 2,
            i % 2 == 0,
            i <= pairs_end,
            forall|j: int| 0 <= j < i ==> buf@[j] == reordered(order, orig)[j],
            forall|j: int| i <= j < n ==> buf@[j] == orig[j],
        decreases pairs_end - i,
    {
        let v = read_be_u16(buf[i], buf[i + 1]);
        let hi = (v / 256) as u8;
        let lo = (v % 256) as u8;
        match order {
            ByteOrder::Little => {
                buf.set(i, lo);
                buf.set(i + 1, hi);
            },
            ByteOrder::Big => {
                buf.set(i, hi);
                buf.set(i + 1, lo);
            },
        }
        i = i + 2;
    }
    assert(buf@ =~= reordered(order, orig));
    proof {
        assert forall|k: int|
            #![trigger orig[2 * k]]
            0 <= k && 2 * k + 1 < orig.len() implies value_in(
                order,
                buf@[2 * k],
                buf@[2 * k + 1],
            ) == be_value(orig[2 * k], orig[2 * k + 1]) by {
            lemma_normalized_reads_back(order, layout, orig, k);
        }
    }
}

} // verus!
