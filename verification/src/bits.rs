//! Shared facts about the byte- and word-level arithmetic the components
//! lean on, each proved once by bit blasting.

use vstd::prelude::*;

verus! {

/// A low byte or-ed with a high byte shifted up is the little-endian value
/// `lo + hi * 0x100`, in either operand order.
pub proof fn lemma_le_combine(lo: u8, hi: u8)
    ensures
        (lo as u16 | ((hi as u16) << 8)) == lo + hi * 0x100,
        (((hi as u16) << 8) | lo as u16) == lo + hi * 0x100,
        lo + hi * 0x100 <= 0xFFFF,
{
    assert((lo as u16 | ((hi as u16) << 8)) == lo + hi * 0x100 && (((hi as u16) << 8) | lo as u16)
        == lo + hi * 0x100 && lo + hi * 0x100 <= 0xFFFF) by (bit_vector);
}

/// Splitting a 16-bit value into its bytes and recombining them gives the
/// value back.
pub proof fn lemma_le_split(v: u16)
    ensures
        (v & 0xFF) + (v >> 8) * 0x100 == v,
        v & 0xFF <= 0xFF,
        v >> 8 <= 0xFF,
{
    assert((v & 0xFF) + (v >> 8) * 0x100 == v && (v & 0xFF) <= 0xFF && (v >> 8) <= 0xFF)
        by (bit_vector);
}

/// Byte-level mask and flag facts: a masked byte never exceeds its mask, a
/// full-mask register write stores the value, small fields extracted by
/// mask-and-shift stay inside their ranges, and the processor flag bits
/// behave as flags.
pub proof fn lemma_u8_masks()
    ensures
        forall|a: u8, m: u8| #[trigger] (a & m) <= m,
        forall|m: u8| #[trigger] (0 & m) == 0,
        forall|a: u8| #[trigger] (a & 0xFF) == a,
        forall|a: u8| (a | 0) == a && (0 | a) == a,
        forall|d: u8, v: u8| #[trigger] ((d & !0xFF) | (v & 0xFF)) == v,
        forall|a: u8| #[trigger] ((a & 0xF8) >> 3) < 32,
        forall|a: u8| #[trigger] ((a & 0xC0) >> 6) < 4,
        forall|a: u8| #[trigger] ((a & 0x70) >> 4) < 8,
        forall|a: u8| a & 0x7F <= 125 ==> (a & 0x7F) + 2 <= 127,
        forall|a: u8| (#[trigger] (a & 0x80) != 0) <==> a >= 0x80,
        forall|a: u8| a & 0x01 == 0 || a & 0x01 == 1,
        forall|f: u8| ((f & 0x10 != 0 || f & 0x08 != 0) <==> #[trigger] (f & 0x18) != 0),
        forall|a: u8| #[trigger] ((a | 0x40) | 0x40) == a | 0x40,
        forall|f: u8|
            #[trigger] (((f | 0x80) & !0x40) & 0x80) != 0 && ((f | 0x80) & !0x40) & 0x40 == 0,
        forall|f: u8|
            (#[trigger] (((f & !0x40) & !0x80) & !0x20)) & 0x80 == 0 && (((f & !0x40) & !0x80)
                & !0x20) & 0x40 == 0 && (((f & !0x40) & !0x80) & !0x20) & 0x20 == 0,
        forall|v: u8|
            (#[trigger] ((v | 0x20) & !0x10)) & 0x20 == 0x20 && ((v | 0x20) & !0x10) & 0x10 == 0,
{
    assert((forall|a: u8, m: u8| #[trigger] (a & m) <= m) && (forall|m: u8| #[trigger] (0 & m)
        == 0) && (forall|a: u8| #[trigger] (a & 0xFF) == a) && (forall|a: u8|
        (a | 0) == a && (0 | a) == a) && (forall|d: u8, v: u8| #[trigger] ((d & !0xFF) | (v
        & 0xFF)) == v) && (forall|a: u8| #[trigger] ((a & 0xF8) >> 3) < 32) && (forall|a: u8|
        #[trigger] ((a & 0xC0) >> 6) < 4) && (forall|a: u8| #[trigger] ((a & 0x70) >> 4) < 8) && (
    forall|a: u8| a & 0x7F <= 125 ==> (a & 0x7F) + 2 <= 127) && (forall|a: u8|
        (#[trigger] (a & 0x80) != 0) <==> a >= 0x80) && (forall|a: u8|
        a & 0x01 == 0 || a & 0x01 == 1) && (forall|f: u8|
        ((f & 0x10 != 0 || f & 0x08 != 0) <==> #[trigger] (f & 0x18) != 0)) && (forall|a: u8|
        #[trigger] ((a | 0x40) | 0x40) == a | 0x40) && (forall|f: u8| #[trigger] (((f | 0x80)
        & !0x40) & 0x80) != 0 && ((f | 0x80) & !0x40) & 0x40 == 0) && (forall|f: u8|
        (#[trigger] (((f & !0x40) & !0x80) & !0x20)) & 0x80 == 0 && (((f & !0x40) & !0x80) & !0x20)
            & 0x40 == 0 && (((f & !0x40) & !0x80) & !0x20) & 0x20 == 0) && (forall|v: u8|
        (#[trigger] ((v | 0x20) & !0x10)) & 0x20 == 0x20 && ((v | 0x20) & !0x10) & 0x10 == 0))
        by (bit_vector);
}

/// Word-level facts: masked words stay below their masks, the renderer's
/// small or-ed fields stay inside their ranges, byte-to-word shifts are the
/// expected multiples, the scroll fields extracted from the latch fit a
/// byte, and the port window folds onto the eight register slots.
pub proof fn lemma_u16_facts()
    ensures
        forall|a: u16, m: u16| #[trigger] (a & m) <= m,
        forall|a: u16, b: u16| a < 2 && b < 2 ==> #[trigger] (a | (b << 1)) < 4,
        forall|a: u16, b: u16| a < 4 && b < 4 ==> #[trigger] (a | (b << 2)) < 16,
        forall|a: u16, b: u16| a < 4 && b < 4 ==> #[trigger] ((a | 0x10) | (b << 2)) < 32,
        forall|a: u16, b: u16| #[trigger] ((a & 4) | (b & 2)) <= 6,
        forall|a: u16| #[trigger] ((a & 7) | ((a & 8) << 1)) <= 23,
        forall|a: u16| a <= 255 ==> #[trigger] (a >> 1) <= 127,
        forall|a: u16| #[trigger] ((a & 1) << 12) <= 0x1000,
        forall|a: u8| #[trigger] ((a as u16) << 6) == a * 64 && a * 64 <= 0x3FC0,
        forall|a: u8| #[trigger] ((a as u16) << 4) == a * 16 && a * 16 <= 0xFF0,
        forall|a: u8| #[trigger] ((a as u16) << 8) <= 0xFF00 && ((a as u16) << 8) == a * 256,
        forall|a: u16| #[trigger] (a & 0x7FF) == a % 0x800,
        forall|lo: u8, hi: u8| #[trigger] (lo as u16 | (((hi & 7) as u16) << 8)) <= 0x7FF,
        forall|a: u16| a < 0x800 ==> #[trigger] (a & 0x7FF) == a,
        forall|a: u16| a < 0x4000 ==> #[trigger] (a & 0x3FFF) == a,
        forall|a: u16| #[trigger] (a & 0xFF) == a % 0x100 && (a & 0xFF) <= 0xFF,
        forall|a: u16| a & 0x00FF != 0x00FF ==> a < 0xFFFF,
        forall|p: u16| p >= 0x8000 ==> #[trigger] (p & 0xFF00) >= 0x8000,
        forall|p: u16| p < 0x2000 ==> #[trigger] (p & 0xFF00) < 0x2000,
        (0x1FFFu16 & 0x00FF) == 0xFF,
        forall|a: u16| #[trigger] (a & 0x001F) != 0x001F ==> a < 0xFFFF,
        forall|a: u16| #[trigger] (a & 0x7000) != 0x7000 ==> a < 0xF000,
        forall|a: u16| #[trigger] ((a & 0x03E0) >> 5) < 32,
        forall|t: u16, x: u8| #[trigger] (((t & 0x001F) << 3) | x as u16) <= 255,
        forall|t: u16| #[trigger] (((t & 0x03E0) >> 2) | ((t & 0x7000) >> 12)) <= 255,
        forall|t: u16| #[trigger] ((t & 0x0C00) >> 10) < 4,
        forall|a: u16|
            0x2000 <= a < 0x4000 ==> (#[trigger] (a & 0x2007) == 0x2000 || a & 0x2007 == 0x2001
                || a & 0x2007 == 0x2002 || a & 0x2007 == 0x2003 || a & 0x2007 == 0x2004 || a
                & 0x2007 == 0x2005 || a & 0x2007 == 0x2006 || a & 0x2007 == 0x2007),
{
    assert((forall|a: u16, m: u16| #[trigger] (a & m) <= m) && (forall|a: u16, b: u16|
        a < 2 && b < 2 ==> #[trigger] (a | (b << 1)) < 4) && (forall|a: u16, b: u16|
        a < 4 && b < 4 ==> #[trigger] (a | (b << 2)) < 16) && (forall|a: u16, b: u16|
        a < 4 && b < 4 ==> #[trigger] ((a | 0x10) | (b << 2)) < 32) && (forall|a: u16, b: u16|
        #[trigger] ((a & 4) | (b & 2)) <= 6) && (forall|a: u16| #[trigger] ((a & 7) | ((a & 8)
        << 1)) <= 23) && (forall|a: u16| a <= 255 ==> #[trigger] (a >> 1) <= 127) && (forall|
        a: u16,
    | #[trigger] ((a & 1) << 12) <= 0x1000) && (forall|a: u8| #[trigger] ((a as u16) << 6) == a
        * 64 && a * 64 <= 0x3FC0) && (forall|a: u8| #[trigger] ((a as u16) << 4) == a * 16 && a
        * 16 <= 0xFF0) && (forall|a: u8| #[trigger] ((a as u16) << 8) <= 0xFF00 && ((a as u16) << 8) == a * 256) && (
    forall|a: u16| #[trigger] (a & 0x7FF) == a % 0x800) && (forall|
        lo: u8,
        hi: u8,
    | #[trigger] (lo as u16 | (((hi & 7) as u16) << 8)) <= 0x7FF) && (forall|a: u16|
        a < 0x800 ==> #[trigger] (a & 0x7FF) == a) && (forall|a: u16|
        a < 0x4000 ==> #[trigger] (a & 0x3FFF) == a) && (forall|a: u16|
        #[trigger] (a & 0xFF) == a % 0x100 && (a & 0xFF) <= 0xFF) && (forall|a: u16|
        a & 0x00FF != 0x00FF ==> a < 0xFFFF) && (forall|p: u16|
        p >= 0x8000 ==> #[trigger] (p & 0xFF00) >= 0x8000) && (forall|p: u16|
        p < 0x2000 ==> #[trigger] (p & 0xFF00) < 0x2000) && ((0x1FFFu16 & 0x00FF) == 0xFF) && (
    forall|a: u16| #[trigger] (a & 0x001F) != 0x001F ==> a < 0xFFFF) && (forall|a: u16|
        #[trigger] (a & 0x7000) != 0x7000 ==> a < 0xF000) && (forall|a: u16| #[trigger] ((a
        & 0x03E0) >> 5) < 32) && (forall|t: u16, x: u8| #[trigger] (((t & 0x001F) << 3) | x as u16)
        <= 255) && (forall|t: u16| #[trigger] (((t & 0x03E0) >> 2) | ((t & 0x7000) >> 12)) <= 255)
        && (forall|t: u16| #[trigger] ((t & 0x0C00) >> 10) < 4) && (forall|a: u16|
        0x2000 <= a < 0x4000 ==> (#[trigger] (a & 0x2007) == 0x2000 || a & 0x2007 == 0x2001 || a
            & 0x2007 == 0x2002 || a & 0x2007 == 0x2003 || a & 0x2007 == 0x2004 || a & 0x2007
            == 0x2005 || a & 0x2007 == 0x2006 || a & 0x2007 == 0x2007))) by (bit_vector);
}

/// The processor status flags occupy pairwise-distinct bits.
pub proof fn lemma_flag_constants()
    ensures
        0x01u8 & 0x02u8 == 0,
        0x01u8 & 0x40u8 == 0,
        0x01u8 & 0x80u8 == 0,
        0x02u8 & 0x40u8 == 0,
        0x02u8 & 0x80u8 == 0,
        0x40u8 & 0x80u8 == 0,
{
    assert(0x01u8 & 0x02u8 == 0 && 0x01u8 & 0x40u8 == 0 && 0x01u8 & 0x80u8 == 0 && 0x02u8 & 0x40u8
        == 0 && 0x02u8 & 0x80u8 == 0 && 0x40u8 & 0x80u8 == 0) by (bit_vector);
}

} // verus!
