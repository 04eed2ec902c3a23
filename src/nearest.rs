use vstd::prelude::*;

verus! {

/// One of the two roots of a ray–sphere quadratic.
#[derive(Clone, Copy, Debug, PartialEq, Eq, Structural)]
pub enum Root {
    /// The smaller root, `(-half_b - sqrt(disc)) / a`.
    Near,
    /// The larger root, `(-half_b + sqrt(disc)) / a`.
    Far,
}

/// The root at which a sphere is hit: the near one when it lies in the query
/// interval, else the far one when it does, else none.
pub fn choose_root(near_in_range: bool, far_in_range: bool) -> (r: Option<Root>)
    ensures
        r == if near_in_range {
            Some(Root::Near)
        } else if far_in_range {
            Some(Root::Far)
        } else {
            None::<Root>
        },
{
    if near_in_range {
        Some(Root::Near)
    } else if far_in_range {
        Some(Root::Far)
    } else {
        None
    }
}

/// `keys[i]` is a hit whose key is the least of all hits, and no earlier entry
/// is a hit with the same key.
pub open spec fn is_nearest(keys: Seq<Option<u64>>, i: int) -> bool {
    &&& 0 <= i < keys.len()
    &&& keys[i] is Some
    &&& forall|j: int| 0 <= j < keys.len() && keys[j] is Some ==> keys[i]->0 <= keys[j]->0
    &&& forall|j: int| 0 <= j < i && keys[j] is Some ==> keys[i]->0 < keys[j]->0
}

/// Picks the nearest of the hits of a scene's members, given for each member
/// in scene order the order key of its hit distance or `None` for a miss. Of
/// equal keys the first wins.
pub fn nearest_hit(keys: &Vec<Option<u64>>) -> (r: Option<usize>)
    ensures
        r is None <==> forall|j: int| 0 <= j < keys@.len() ==> keys@[j] is None,
        r matches Some(i) ==> is_nearest(keys@, i as int),
{
    let mut best: Option<usize> = None;
    let mut best_key: u64 = 0;
    let mut j: usize = 0;
    while j < keys.len()
        invariant
            j <= keys@.len(),
            best is None <==> forall|k: int| 0 <= k < j ==> keys@[k] is None,
            best matches Some(i) ==> {
                &&& i < j
                &&& keys@[i as int] == Some(best_key)
                &&& forall|k: int| 0 <= k < j && keys@[k] is Some ==> best_key <= keys@[k]->0
                &&& forall|k: int| 0 <= k < i && keys@[k] is Some ==> best_key < keys@[k]->0
            },
        decreases keys@.len() - j,
    {
        if let Some(k) = keys[j] {
            let better = match best {
                None => true,
                Some(_) => k < best_key,
            };
            if better {
                best = Some(j);
                best_key = k;
            }
        }
        j = j + 1;
    }
    best
}

/// The value of a 64-bit sign-and-magnitude word: the low 63 bits give the
/// magnitude and the top bit the sign; a negative zero lies just below zero.
pub open spec fn signed_magnitude(bits: u64) -> int {
    if bits < 0x8000_0000_0000_0000 {
        bits as int
    } else {
        0x7fff_ffff_ffff_ffff - bits as int
    }
}

/// An unsigned key for the bit pattern of a hit distance that orders as the
/// signed magnitudes do, which is the order of IEEE-754 doubles on all values
/// but NaN: the value shifted up by 2^63.
pub fn distance_key(bits: u64) -> (r: u64)
    ensures
        r as int == signed_magnitude(bits) + 0x8000_0000_0000_0000,
{
    if bits < 0x8000_0000_0000_0000 {
        assert(bits | 0x8000_0000_0000_0000u64 == bits + 0x8000_0000_0000_0000u64) by (bit_vector)
            requires
                bits < 0x8000_0000_0000_0000u64,
        ;
        bits | 0x8000_0000_0000_0000
    } else {
        assert(!bits == 0xffff_ffff_ffff_ffffu64 - bits) by (bit_vector);
        !bits
    }
}

} // verus!
