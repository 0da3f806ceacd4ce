//! Choices made when the surface is configured.
use vstd::prelude::*;

verus! {

/// The format the surface is configured with, given for each format that the
/// surface supports (in the order the adapter lists them) whether it is an
/// sRGB format: the first sRGB one, or the first one when none is.
pub open spec fn preferred_format(srgb: Seq<bool>) -> int {
    if exists|i: int| 0 <= i < srgb.len() && srgb[i] {
        choose|i: int|
            0 <= i < srgb.len() && srgb[i] && forall|j: int| 0 <= j < i ==> !srgb[j]
    } else {
        0
    }
}

/// The index of the format to configure the surface with; see
/// `preferred_format`.
pub fn choose_format(srgb: &Vec<bool>) -> (r: usize)
    requires
        srgb@.len() > 0,
    ensures
        r < srgb@.len(),
        r == preferred_format(srgb@),
{
    let mut i: usize = 0;
    while i < srgb.len()
        invariant
            i <= srgb@.len(),
            forall|j: int| 0 <= j < i ==> !srgb@[j],
        decreases srgb@.len() - i,
    {
        if srgb[i] {
            assert(srgb@[i as int] && forall|j: int| 0 <= j < i ==> !srgb@[j]);
            let ghost c = preferred_format(srgb@);
            assert(c == i) by {
                if c < i {
                    assert(!srgb@[c]);
                }
            }
            return i;
        }
        i = i + 1;
    }
    0
}

} // verus!
