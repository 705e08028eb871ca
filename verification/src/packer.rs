//! The texture packer: an arbitrary-length sequence of 32-bit texels is
//! laid into the smallest square texture that holds it, row-major from
//! texel (0, 0), with the remainder zero-filled.

use crate::gpu::{RenderDevice, Texture};
use vstd::prelude::*;

verus! {

/// The largest number of texels a packed texture may carry: the side
/// length is kept within 16 bits so the texel count of the square stays
/// addressable on every platform.
pub const MAX_PACKED_TEXELS: usize = 0xFFFE_0001;

/// `side` is the smallest positive side of a square holding `n` texels:
/// the square is large enough, and the next smaller square is not. `n = 0`
/// still gets a valid 1x1 texture, never a zero-sized one.
pub open spec fn is_min_side(n: nat, side: nat) -> bool {
    &&& side >= 1
    &&& side * side >= n
    &&& side > 1 ==> (side - 1) * (side - 1) < n
}

/// The smallest positive side of a square holding `n` texels.
pub fn texture_side(n: usize) -> (side: u32)
    requires
        n <= MAX_PACKED_TEXELS,
    ensures
        is_min_side(n as nat, side as nat),
        side <= 0xFFFF,
{
    if n == 0 {
        return 1;
    }
    let mut lo: u32 = 1;
    let mut hi: u32 = 0xFFFF;
    proof {
        assert((hi as nat) * (hi as nat) >= n as nat) by (nonlinear_arith)
            requires
                hi == 0xFFFF,
                n <= 0xFFFE_0001,
        ;
        assert(((lo - 1) as nat) * ((lo - 1) as nat) < n as nat) by (nonlinear_arith)
            requires
                lo == 1,
                n >= 1,
        ;
    }
    while lo < hi
        invariant
            1 <= lo <= hi <= 0xFFFF,
            (hi as nat) * (hi as nat) >= n as nat,
            ((lo - 1) as nat) * ((lo - 1) as nat) < n as nat,
        decreases hi - lo,
    {
        let mid: u32 = lo + (hi - lo) / 2;
        proof {
            assert((mid as nat) * (mid as nat) <= 0xFFFF * 0xFFFF) by (nonlinear_arith)
                requires
                    mid <= 0xFFFF,
            ;
        }
        let square: u64 = (mid as u64) * (mid as u64);
        if square >= n as u64 {
            hi = mid;
        } else {
            lo = mid + 1;
        }
    }
    lo
}

/// The smallest positive side is unique: two sides both minimal for the
/// same texel count are the same side.
pub proof fn lemma_min_side_unique(n: nat, a: nat, b: nat)
    requires
        is_min_side(n, a),
        is_min_side(n, b),
    ensures
        a == b,
{
    if a < b {
        assert(a * a <= (b - 1) * (b - 1)) by (nonlinear_arith)
            requires
                a <= b - 1,
        ;
    }
    if b < a {
        assert(b * b <= (a - 1) * (a - 1)) by (nonlinear_arith)
            requires
                b <= a - 1,
        ;
    }
}

/// The packed texel sequence is the input written row-major from the first
/// texel, with the rest of the square zero-filled.
pub open spec fn packed_texels_ok(texels: Seq<u32>, data: Seq<u32>, side: nat) -> bool {
    &&& is_min_side(data.len(), side)
    &&& texels.len() == side * side
    &&& forall|i: int| 0 <= i < data.len() ==> texels[i] == data[i]
    &&& forall|i: int| data.len() <= i < texels.len() ==> texels[i] == 0
}

/// Lays the data into the smallest square, zero-padding the remainder.
/// Returns the side length and the padded texel sequence.
pub fn pack_square(data: &Vec<u32>) -> (r: (u32, Vec<u32>))
    requires
        data@.len() <= MAX_PACKED_TEXELS,
    ensures
        packed_texels_ok(r.1@, data@, r.0 as nat),
{
    let side = texture_side(data.len());
    proof {
        assert((side as nat) * (side as nat) <= 0xFFFF * 0xFFFF) by (nonlinear_arith)
            requires
                side <= 0xFFFF,
        ;
        assert(0xFFFF * 0xFFFF <= usize::MAX);
    }
    let total: usize = (side as usize) * (side as usize);
    let mut texels: Vec<u32> = Vec::new();
    let mut i: usize = 0;
    while i < data.len()
        invariant
            i <= data@.len(),
            texels@.len() == i,
            forall|j: int| 0 <= j < i ==> texels@[j] == data@[j],
        decreases data@.len() - i,
    {
        texels.push(data[i]);
        i = i + 1;
    }
    while texels.len() < total
        invariant
            data@.len() <= texels@.len() <= total,
            total == (side as nat) * (side as nat),
            forall|j: int| 0 <= j < data@.len() ==> texels@[j] == data@[j],
            forall|j: int| data@.len() <= j < texels@.len() ==> texels@[j] == 0,
        decreases total - texels@.len(),
    {
        texels.push(0);
    }
    (side, texels)
}

/// Packs the data into the smallest square and uploads it as one texture:
/// one allocation and one full-extent write per call. Callers invoke this
/// only when the data changed.
pub fn prepare_texture_from_data(device: &mut RenderDevice, data: &Vec<u32>) -> (t: Texture)
    requires
        data@.len() <= MAX_PACKED_TEXELS,
        old(device).next_id < u64::MAX,
    ensures
        packed_texels_ok(t.texels@, data@, t.side as nat),
        t.id == old(device).next_id,
        final(device).next_id == old(device).next_id + 1,
{
    let (side, texels) = pack_square(data);
    device.create_texture(side, texels)
}

} // verus!
