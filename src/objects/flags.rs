//! Packed flag words: named bits at fixed positions, with every other bit kept as read.
//!
//! Bit `k` is bit `k` of the integer read in the stream's byte order, counting from the least
//! significant bit.
use vstd::prelude::*;
use crate::wire::{DecodeError, Endian, Wire};

verus! {

/// Bit `k` of a 32-bit word.
pub open spec fn bit32(w: u32, k: u32) -> bool {
    (w >> k) & 1u32 == 1u32
}

/// Bit `k` of a 64-bit word.
pub open spec fn bit64(w: u64, k: u64) -> bool {
    (w >> k) & 1u64 == 1u64
}

fn get_bit32(w: u32, k: u32) -> (r: bool)
    requires
        k < 32,
    ensures
        r == bit32(w, k),
{
    (w >> k) & 1u32 == 1u32
}

fn put_bit32(w: u32, k: u32, v: bool) -> (r: u32)
    requires
        k < 32,
    ensures
        bit32(r, k) == v,
        forall|j: u32| j < 32 && j != k ==> bit32(r, j) == bit32(w, j),
{
    let r = if v {
        w | (1u32 << k)
    } else {
        w & !(1u32 << k)
    };
    proof {
        if v {
            assert(((w | (1u32 << k)) >> k) & 1u32 == 1u32) by (bit_vector)
                requires
                    k < 32,
            ;
            assert(forall|j: u32| j < 32 && j != k ==> ((w | (1u32 << k)) >> j) & 1u32 == (w >> j) & 1u32) by (bit_vector)
                requires
                    k < 32,
            ;
        } else {
            assert(((w & !(1u32 << k)) >> k) & 1u32 == 0u32) by (bit_vector)
                requires
                    k < 32,
            ;
            assert(forall|j: u32| j < 32 && j != k ==> ((w & !(1u32 << k)) >> j) & 1u32 == (w >> j) & 1u32) by (bit_vector)
                requires
                    k < 32,
            ;
        }
    }
    r
}

fn get_bit64(w: u64, k: u64) -> (r: bool)
    requires
        k < 64,
    ensures
        r == bit64(w, k),
{
    (w >> k) & 1u64 == 1u64
}

fn put_bit64(w: u64, k: u64, v: bool) -> (r: u64)
    requires
        k < 64,
    ensures
        bit64(r, k) == v,
        forall|j: u64| j < 64 && j != k ==> bit64(r, j) == bit64(w, j),
{
    let r = if v {
        w | (1u64 << k)
    } else {
        w & !(1u64 << k)
    };
    proof {
        if v {
            assert(((w | (1u64 << k)) >> k) & 1u64 == 1u64) by (bit_vector)
                requires
                    k < 64,
            ;
            assert(forall|j: u64| j < 64 && j != k ==> ((w | (1u64 << k)) >> j) & 1u64 == (w >> j) & 1u64) by (bit_vector)
                requires
                    k < 64,
            ;
        } else {
            assert(((w & !(1u64 << k)) >> k) & 1u64 == 0u64) by (bit_vector)
                requires
                    k < 64,
            ;
            assert(forall|j: u64| j < 64 && j != k ==> ((w & !(1u64 << k)) >> j) & 1u64 == (w >> j) & 1u64) by (bit_vector)
                requires
                    k < 64,
            ;
        }
    }
    r
}

/// The global attributes of a collision; a 32-bit word.
#[derive(Clone, Copy, Debug, PartialEq, Eq, Structural)]
pub struct CollisionFlags {
    bits: u32,
}

impl View for CollisionFlags {
    type V = u32;

    closed spec fn view(&self) -> u32 {
        self.bits
    }
}

impl CollisionFlags {
    /// The flags with the given word, reserved bits included.
    pub fn from_bits(bits: u32) -> (r: Self)
        ensures
            r@ == bits,
    {
        CollisionFlags { bits }
    }

    /// The whole word, reserved bits included.
    pub fn to_bits(&self) -> (r: u32)
        ensures
            r == self@,
    {
        self.bits
    }

    /// Whether the collision's floor edges can be dropped through. (bit 0)
    pub fn throughable(&self) -> (r: bool)
        ensures
            r == bit32(self@, 0),
    {
        get_bit32(self.bits, 0)
    }

    /// Sets or clears bit 0; every other bit is kept.
    pub fn set_throughable(&mut self, v: bool)
        ensures
            bit32(final(self)@, 0) == v,
            forall|j: u32| j < 32 && j != 0 ==> bit32(final(self)@, j) == bit32(old(self)@, j),
    {
        self.bits = put_bit32(self.bits, 0, v);
    }

    /// Whether the collision is classed as dynamic. (bit 16)
    pub fn dynamic(&self) -> (r: bool)
        ensures
            r == bit32(self@, 16),
    {
        get_bit32(self.bits, 16)
    }

    /// Sets or clears bit 16; every other bit is kept.
    pub fn set_dynamic(&mut self, v: bool)
        ensures
            bit32(final(self)@, 16) == v,
            forall|j: u32| j < 32 && j != 16 ==> bit32(final(self)@, j) == bit32(old(self)@, j),
    {
        self.bits = put_bit32(self.bits, 16, v);
    }

}

impl Wire for CollisionFlags {
    open spec fn wf(&self) -> bool {
        true
    }

    open spec fn spec_bytes(&self, e: Endian) -> Seq<u8> {
        self@.spec_bytes(e)
    }

    open spec fn spec_accepts(&self, e: Endian, s: Seq<u8>) -> bool {
        self@.spec_accepts(e, s)
    }

    open spec fn same(&self, other: &Self) -> bool {
        self@ == other@
    }

    proof fn lemma_canonical(&self, e: Endian) {
    }

    fn decode(e: Endian, buf: &[u8], pos: usize) -> (r: Result<(Self, usize), DecodeError>) {
        match u32::decode(e, buf, pos) {
            Ok((bits, end)) => Ok((CollisionFlags { bits }, end)),
            Err(err) => Err(err),
        }
    }

    fn encode(&self, e: Endian, out: &mut Vec<u8>) {
        self.bits.encode(e, out);
    }
}

/// The attributes of an edge; a 64-bit word whose upper half is reserved.
#[derive(Clone, Copy, Debug, PartialEq, Eq, Structural)]
pub struct AttributeFlags {
    bits: u64,
}

impl View for AttributeFlags {
    type V = u64;

    closed spec fn view(&self) -> u64 {
        self.bits
    }
}

impl AttributeFlags {
    /// The flags with the given word, reserved bits included.
    pub fn from_bits(bits: u64) -> (r: Self)
        ensures
            r@ == bits,
    {
        AttributeFlags { bits }
    }

    /// The whole word, reserved bits included.
    pub fn to_bits(&self) -> (r: u64)
        ensures
            r == self@,
    {
        self.bits
    }

    /// Whether the edge has the `length0` attribute. (bit 0)
    pub fn length0(&self) -> (r: bool)
        ensures
            r == bit64(self@, 0),
    {
        get_bit64(self.bits, 0)
    }

    /// Sets or clears bit 0; every other bit is kept.
    pub fn set_length0(&mut self, v: bool)
        ensures
            bit64(final(self)@, 0) == v,
            forall|j: u64| j < 64 && j != 0 ==> bit64(final(self)@, j) == bit64(old(self)@, j),
    {
        self.bits = put_bit64(self.bits, 0, v);
    }

    /// Whether the edge has the `packman_final_ignore` attribute. (bit 1)
    pub fn packman_final_ignore(&self) -> (r: bool)
        ensures
            r == bit64(self@, 1),
    {
        get_bit64(self.bits, 1)
    }

    /// Sets or clears bit 1; every other bit is kept.
    pub fn set_packman_final_ignore(&mut self, v: bool)
        ensures
            bit64(final(self)@, 1) == v,
            forall|j: u64| j < 64 && j != 1 ==> bit64(final(self)@, j) == bit64(old(self)@, j),
    {
        self.bits = put_bit64(self.bits, 1, v);
    }

    /// Whether the edge has the `fall` attribute. (bit 2)
    pub fn fall(&self) -> (r: bool)
        ensures
            r == bit64(self@, 2),
    {
        get_bit64(self.bits, 2)
    }

    /// Sets or clears bit 2; every other bit is kept.
    pub fn set_fall(&mut self, v: bool)
        ensures
            bit64(final(self)@, 2) == v,
            forall|j: u64| j < 64 && j != 2 ==> bit64(final(self)@, j) == bit64(old(self)@, j),
    {
        self.bits = put_bit64(self.bits, 2, v);
    }

    /// Whether the edge has the `ignore_ray_check` attribute. (bit 3)
    pub fn ignore_ray_check(&self) -> (r: bool)
        ensures
            r == bit64(self@, 3),
    {
        get_bit64(self.bits, 3)
    }

    /// Sets or clears bit 3; every other bit is kept.
    pub fn set_ignore_ray_check(&mut self, v: bool)
        ensures
            bit64(final(self)@, 3) == v,
            forall|j: u64| j < 64 && j != 3 ==> bit64(final(self)@, j) == bit64(old(self)@, j),
    {
        self.bits = put_bit64(self.bits, 3, v);
    }

    /// Whether the edge has the `dive` attribute. (bit 4)
    pub fn dive(&self) -> (r: bool)
        ensures
            r == bit64(self@, 4),
    {
        get_bit64(self.bits, 4)
    }

    /// Sets or clears bit 4; every other bit is kept.
    pub fn set_dive(&mut self, v: bool)
        ensures
            bit64(final(self)@, 4) == v,
            forall|j: u64| j < 64 && j != 4 ==> bit64(final(self)@, j) == bit64(old(self)@, j),
    {
        self.bits = put_bit64(self.bits, 4, v);
    }

    /// Whether the edge has the `unpaintable` attribute. (bit 5)
    pub fn unpaintable(&self) -> (r: bool)
        ensures
            r == bit64(self@, 5),
    {
        get_bit64(self.bits, 5)
    }

    /// Sets or clears bit 5; every other bit is kept.
    pub fn set_unpaintable(&mut self, v: bool)
        ensures
            bit64(final(self)@, 5) == v,
            forall|j: u64| j < 64 && j != 5 ==> bit64(final(self)@, j) == bit64(old(self)@, j),
    {
        self.bits = put_bit64(self.bits, 5, v);
    }

    /// Whether the edge has the `item` attribute. (bit 6)
    pub fn item(&self) -> (r: bool)
        ensures
            r == bit64(self@, 6),
    {
        get_bit64(self.bits, 6)
    }

    /// Sets or clears bit 6; every other bit is kept.
    pub fn set_item(&mut self, v: bool)
        ensures
            bit64(final(self)@, 6) == v,
            forall|j: u64| j < 64 && j != 6 ==> bit64(final(self)@, j) == bit64(old(self)@, j),
    {
        self.bits = put_bit64(self.bits, 6, v);
    }

    /// Whether the edge has the `ignore_fighter_other` attribute. (bit 7)
    pub fn ignore_fighter_other(&self) -> (r: bool)
        ensures
            r == bit64(self@, 7),
    {
        get_bit64(self.bits, 7)
    }

    /// Sets or clears bit 7; every other bit is kept.
    pub fn set_ignore_fighter_other(&mut self, v: bool)
        ensures
            bit64(final(self)@, 7) == v,
            forall|j: u64| j < 64 && j != 7 ==> bit64(final(self)@, j) == bit64(old(self)@, j),
    {
        self.bits = put_bit64(self.bits, 7, v);
    }

    /// Whether the edge has the `right` attribute. (bit 8)
    pub fn right(&self) -> (r: bool)
        ensures
            r == bit64(self@, 8),
    {
        get_bit64(self.bits, 8)
    }

    /// Sets or clears bit 8; every other bit is kept.
    pub fn set_right(&mut self, v: bool)
        ensures
            bit64(final(self)@, 8) == v,
            forall|j: u64| j < 64 && j != 8 ==> bit64(final(self)@, j) == bit64(old(self)@, j),
    {
        self.bits = put_bit64(self.bits, 8, v);
    }

    /// Whether the edge has the `left` attribute. (bit 9)
    pub fn left(&self) -> (r: bool)
        ensures
            r == bit64(self@, 9),
    {
        get_bit64(self.bits, 9)
    }

    /// Sets or clears bit 9; every other bit is kept.
    pub fn set_left(&mut self, v: bool)
        ensures
            bit64(final(self)@, 9) == v,
            forall|j: u64| j < 64 && j != 9 ==> bit64(final(self)@, j) == bit64(old(self)@, j),
    {
        self.bits = put_bit64(self.bits, 9, v);
    }

    /// Whether the edge has the `upper` attribute. (bit 10)
    pub fn upper(&self) -> (r: bool)
        ensures
            r == bit64(self@, 10),
    {
        get_bit64(self.bits, 10)
    }

    /// Sets or clears bit 10; every other bit is kept.
    pub fn set_upper(&mut self, v: bool)
        ensures
            bit64(final(self)@, 10) == v,
            forall|j: u64| j < 64 && j != 10 ==> bit64(final(self)@, j) == bit64(old(self)@, j),
    {
        self.bits = put_bit64(self.bits, 10, v);
    }

    /// Whether the edge has the `under` attribute. (bit 11)
    pub fn under(&self) -> (r: bool)
        ensures
            r == bit64(self@, 11),
    {
        get_bit64(self.bits, 11)
    }

    /// Sets or clears bit 11; every other bit is kept.
    pub fn set_under(&mut self, v: bool)
        ensures
            bit64(final(self)@, 11) == v,
            forall|j: u64| j < 64 && j != 11 ==> bit64(final(self)@, j) == bit64(old(self)@, j),
    {
        self.bits = put_bit64(self.bits, 11, v);
    }

    /// Whether the edge has the `not_attach` attribute. (bit 12)
    pub fn not_attach(&self) -> (r: bool)
        ensures
            r == bit64(self@, 12),
    {
        get_bit64(self.bits, 12)
    }

    /// Sets or clears bit 12; every other bit is kept.
    pub fn set_not_attach(&mut self, v: bool)
        ensures
            bit64(final(self)@, 12) == v,
            forall|j: u64| j < 64 && j != 12 ==> bit64(final(self)@, j) == bit64(old(self)@, j),
    {
        self.bits = put_bit64(self.bits, 12, v);
    }

    /// Whether the edge has the `throughable` attribute. (bit 13)
    pub fn throughable(&self) -> (r: bool)
        ensures
            r == bit64(self@, 13),
    {
        get_bit64(self.bits, 13)
    }

    /// Sets or clears bit 13; every other bit is kept.
    pub fn set_throughable(&mut self, v: bool)
        ensures
            bit64(final(self)@, 13) == v,
            forall|j: u64| j < 64 && j != 13 ==> bit64(final(self)@, j) == bit64(old(self)@, j),
    {
        self.bits = put_bit64(self.bits, 13, v);
    }

    /// Whether the edge has the `hang_l` attribute. (bit 14)
    pub fn hang_l(&self) -> (r: bool)
        ensures
            r == bit64(self@, 14),
    {
        get_bit64(self.bits, 14)
    }

    /// Sets or clears bit 14; every other bit is kept.
    pub fn set_hang_l(&mut self, v: bool)
        ensures
            bit64(final(self)@, 14) == v,
            forall|j: u64| j < 64 && j != 14 ==> bit64(final(self)@, j) == bit64(old(self)@, j),
    {
        self.bits = put_bit64(self.bits, 14, v);
    }

    /// Whether the edge has the `hang_r` attribute. (bit 15)
    pub fn hang_r(&self) -> (r: bool)
        ensures
            r == bit64(self@, 15),
    {
        get_bit64(self.bits, 15)
    }

    /// Sets or clears bit 15; every other bit is kept.
    pub fn set_hang_r(&mut self, v: bool)
        ensures
            bit64(final(self)@, 15) == v,
            forall|j: u64| j < 64 && j != 15 ==> bit64(final(self)@, j) == bit64(old(self)@, j),
    {
        self.bits = put_bit64(self.bits, 15, v);
    }

    /// Whether the edge has the `ignore_link_from_left` attribute. (bit 16)
    pub fn ignore_link_from_left(&self) -> (r: bool)
        ensures
            r == bit64(self@, 16),
    {
        get_bit64(self.bits, 16)
    }

    /// Sets or clears bit 16; every other bit is kept.
    pub fn set_ignore_link_from_left(&mut self, v: bool)
        ensures
            bit64(final(self)@, 16) == v,
            forall|j: u64| j < 64 && j != 16 ==> bit64(final(self)@, j) == bit64(old(self)@, j),
    {
        self.bits = put_bit64(self.bits, 16, v);
    }

    /// Whether the edge has the `cloud` attribute. (bit 17)
    pub fn cloud(&self) -> (r: bool)
        ensures
            r == bit64(self@, 17),
    {
        get_bit64(self.bits, 17)
    }

    /// Sets or clears bit 17; every other bit is kept.
    pub fn set_cloud(&mut self, v: bool)
        ensures
            bit64(final(self)@, 17) == v,
            forall|j: u64| j < 64 && j != 17 ==> bit64(final(self)@, j) == bit64(old(self)@, j),
    {
        self.bits = put_bit64(self.bits, 17, v);
    }

    /// Whether the edge has the `ignore_link_from_right` attribute. (bit 18)
    pub fn ignore_link_from_right(&self) -> (r: bool)
        ensures
            r == bit64(self@, 18),
    {
        get_bit64(self.bits, 18)
    }

    /// Sets or clears bit 18; every other bit is kept.
    pub fn set_ignore_link_from_right(&mut self, v: bool)
        ensures
            bit64(final(self)@, 18) == v,
            forall|j: u64| j < 64 && j != 18 ==> bit64(final(self)@, j) == bit64(old(self)@, j),
    {
        self.bits = put_bit64(self.bits, 18, v);
    }

    /// Whether the edge has the `not_expand_near_search` attribute. (bit 19)
    pub fn not_expand_near_search(&self) -> (r: bool)
        ensures
            r == bit64(self@, 19),
    {
        get_bit64(self.bits, 19)
    }

    /// Sets or clears bit 19; every other bit is kept.
    pub fn set_not_expand_near_search(&mut self, v: bool)
        ensures
            bit64(final(self)@, 19) == v,
            forall|j: u64| j < 64 && j != 19 ==> bit64(final(self)@, j) == bit64(old(self)@, j),
    {
        self.bits = put_bit64(self.bits, 19, v);
    }

    /// Whether the edge has the `ignore` attribute. (bit 20)
    pub fn ignore(&self) -> (r: bool)
        ensures
            r == bit64(self@, 20),
    {
        get_bit64(self.bits, 20)
    }

    /// Sets or clears bit 20; every other bit is kept.
    pub fn set_ignore(&mut self, v: bool)
        ensures
            bit64(final(self)@, 20) == v,
            forall|j: u64| j < 64 && j != 20 ==> bit64(final(self)@, j) == bit64(old(self)@, j),
    {
        self.bits = put_bit64(self.bits, 20, v);
    }

    /// Whether the edge has the `breakable` attribute. (bit 21)
    pub fn breakable(&self) -> (r: bool)
        ensures
            r == bit64(self@, 21),
    {
        get_bit64(self.bits, 21)
    }

    /// Sets or clears bit 21; every other bit is kept.
    pub fn set_breakable(&mut self, v: bool)
        ensures
            bit64(final(self)@, 21) == v,
            forall|j: u64| j < 64 && j != 21 ==> bit64(final(self)@, j) == bit64(old(self)@, j),
    {
        self.bits = put_bit64(self.bits, 21, v);
    }

    /// Whether the edge has the `immediate_relanding_ban` attribute. (bit 22)
    pub fn immediate_relanding_ban(&self) -> (r: bool)
        ensures
            r == bit64(self@, 22),
    {
        get_bit64(self.bits, 22)
    }

    /// Sets or clears bit 22; every other bit is kept.
    pub fn set_immediate_relanding_ban(&mut self, v: bool)
        ensures
            bit64(final(self)@, 22) == v,
            forall|j: u64| j < 64 && j != 22 ==> bit64(final(self)@, j) == bit64(old(self)@, j),
    {
        self.bits = put_bit64(self.bits, 22, v);
    }

    /// Whether the edge has the `ignore_line_type1` attribute. (bit 23)
    pub fn ignore_line_type1(&self) -> (r: bool)
        ensures
            r == bit64(self@, 23),
    {
        get_bit64(self.bits, 23)
    }

    /// Sets or clears bit 23; every other bit is kept.
    pub fn set_ignore_line_type1(&mut self, v: bool)
        ensures
            bit64(final(self)@, 23) == v,
            forall|j: u64| j < 64 && j != 23 ==> bit64(final(self)@, j) == bit64(old(self)@, j),
    {
        self.bits = put_bit64(self.bits, 23, v);
    }

    /// Whether the edge has the `pickel_block` attribute. (bit 24)
    pub fn pickel_block(&self) -> (r: bool)
        ensures
            r == bit64(self@, 24),
    {
        get_bit64(self.bits, 24)
    }

    /// Sets or clears bit 24; every other bit is kept.
    pub fn set_pickel_block(&mut self, v: bool)
        ensures
            bit64(final(self)@, 24) == v,
            forall|j: u64| j < 64 && j != 24 ==> bit64(final(self)@, j) == bit64(old(self)@, j),
    {
        self.bits = put_bit64(self.bits, 24, v);
    }

    /// Whether the edge has the `deceleration` attribute. (bit 25)
    pub fn deceleration(&self) -> (r: bool)
        ensures
            r == bit64(self@, 25),
    {
        get_bit64(self.bits, 25)
    }

    /// Sets or clears bit 25; every other bit is kept.
    pub fn set_deceleration(&mut self, v: bool)
        ensures
            bit64(final(self)@, 25) == v,
            forall|j: u64| j < 64 && j != 25 ==> bit64(final(self)@, j) == bit64(old(self)@, j),
    {
        self.bits = put_bit64(self.bits, 25, v);
    }

    /// Whether the edge has the `virtual_hit_line_up` attribute. (bit 26)
    pub fn virtual_hit_line_up(&self) -> (r: bool)
        ensures
            r == bit64(self@, 26),
    {
        get_bit64(self.bits, 26)
    }

    /// Sets or clears bit 26; every other bit is kept.
    pub fn set_virtual_hit_line_up(&mut self, v: bool)
        ensures
            bit64(final(self)@, 26) == v,
            forall|j: u64| j < 64 && j != 26 ==> bit64(final(self)@, j) == bit64(old(self)@, j),
    {
        self.bits = put_bit64(self.bits, 26, v);
    }

    /// Whether the edge has the `virtual_hit_line_left` attribute. (bit 27)
    pub fn virtual_hit_line_left(&self) -> (r: bool)
        ensures
            r == bit64(self@, 27),
    {
        get_bit64(self.bits, 27)
    }

    /// Sets or clears bit 27; every other bit is kept.
    pub fn set_virtual_hit_line_left(&mut self, v: bool)
        ensures
            bit64(final(self)@, 27) == v,
            forall|j: u64| j < 64 && j != 27 ==> bit64(final(self)@, j) == bit64(old(self)@, j),
    {
        self.bits = put_bit64(self.bits, 27, v);
    }

    /// Whether the edge has the `virtual_hit_line_right` attribute. (bit 28)
    pub fn virtual_hit_line_right(&self) -> (r: bool)
        ensures
            r == bit64(self@, 28),
    {
        get_bit64(self.bits, 28)
    }

    /// Sets or clears bit 28; every other bit is kept.
    pub fn set_virtual_hit_line_right(&mut self, v: bool)
        ensures
            bit64(final(self)@, 28) == v,
            forall|j: u64| j < 64 && j != 28 ==> bit64(final(self)@, j) == bit64(old(self)@, j),
    {
        self.bits = put_bit64(self.bits, 28, v);
    }

    /// Whether the edge has the `virtual_hit_line_down` attribute. (bit 29)
    pub fn virtual_hit_line_down(&self) -> (r: bool)
        ensures
            r == bit64(self@, 29),
    {
        get_bit64(self.bits, 29)
    }

    /// Sets or clears bit 29; every other bit is kept.
    pub fn set_virtual_hit_line_down(&mut self, v: bool)
        ensures
            bit64(final(self)@, 29) == v,
            forall|j: u64| j < 64 && j != 29 ==> bit64(final(self)@, j) == bit64(old(self)@, j),
    {
        self.bits = put_bit64(self.bits, 29, v);
    }

    /// Whether the edge has the `virtual_wall_hit_line` attribute. (bit 30)
    pub fn virtual_wall_hit_line(&self) -> (r: bool)
        ensures
            r == bit64(self@, 30),
    {
        get_bit64(self.bits, 30)
    }

    /// Sets or clears bit 30; every other bit is kept.
    pub fn set_virtual_wall_hit_line(&mut self, v: bool)
        ensures
            bit64(final(self)@, 30) == v,
            forall|j: u64| j < 64 && j != 30 ==> bit64(final(self)@, j) == bit64(old(self)@, j),
    {
        self.bits = put_bit64(self.bits, 30, v);
    }

    /// Whether the edge has the `ignore_boss` attribute. (bit 31)
    pub fn ignore_boss(&self) -> (r: bool)
        ensures
            r == bit64(self@, 31),
    {
        get_bit64(self.bits, 31)
    }

    /// Sets or clears bit 31; every other bit is kept.
    pub fn set_ignore_boss(&mut self, v: bool)
        ensures
            bit64(final(self)@, 31) == v,
            forall|j: u64| j < 64 && j != 31 ==> bit64(final(self)@, j) == bit64(old(self)@, j),
    {
        self.bits = put_bit64(self.bits, 31, v);
    }

}

impl Wire for AttributeFlags {
    open spec fn wf(&self) -> bool {
        true
    }

    open spec fn spec_bytes(&self, e: Endian) -> Seq<u8> {
        self@.spec_bytes(e)
    }

    open spec fn spec_accepts(&self, e: Endian, s: Seq<u8>) -> bool {
        self@.spec_accepts(e, s)
    }

    open spec fn same(&self, other: &Self) -> bool {
        self@ == other@
    }

    proof fn lemma_canonical(&self, e: Endian) {
    }

    fn decode(e: Endian, buf: &[u8], pos: usize) -> (r: Result<(Self, usize), DecodeError>) {
        match u64::decode(e, buf, pos) {
            Ok((bits, end)) => Ok((AttributeFlags { bits }, end)),
            Err(err) => Err(err),
        }
    }

    fn encode(&self, e: Endian, out: &mut Vec<u8>) {
        self.bits.encode(e, out);
    }
}

} // verus!
