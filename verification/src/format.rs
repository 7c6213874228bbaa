//! Texture format identity and gamma-corrected (sRGB) format selection.
//!
//! A presentable pixel format is modeled as a base format code together with a
//! flag saying whether the stored values are interpreted through the standard
//! gamma curve. The platform layer assigns the codes; this module only relies
//! on the rule that the gamma-corrected variant of a format keeps its base
//! code and sets the flag.

use vstd::prelude::*;

verus! {

/// Identity of a pixel format: a base format code plus whether the format is
/// gamma-corrected (sRGB).
#[derive(Clone, Copy, Debug, PartialEq, Eq, Structural)]
pub struct FormatId {
    pub base: u32,
    pub srgb: bool,
}

/// The gamma-corrected variant of a format: same base code, sRGB flag set.
/// A format that is already gamma-corrected is its own variant.
pub open spec fn srgb_variant_of(f: FormatId) -> FormatId {
    FormatId { base: f.base, srgb: true }
}

pub fn srgb_variant(f: FormatId) -> (r: FormatId)
    ensures
        r == srgb_variant_of(f),
{
    FormatId { base: f.base, srgb: true }
}

/// Whether some format in the list is gamma-corrected.
pub open spec fn has_srgb(s: Seq<FormatId>) -> bool {
    exists|i: int| 0 <= i < s.len() && s[i].srgb
}

/// Index of the first gamma-corrected format in the list; meaningful only
/// when one exists.
pub open spec fn first_srgb_index(s: Seq<FormatId>) -> int
    decreases s.len(),
{
    if s.len() == 0 {
        0
    } else if s[0].srgb {
        0
    } else {
        1 + first_srgb_index(s.skip(1))
    }
}

/// The format that surface configuration selects from a capability list: the
/// first gamma-corrected format when one is present, otherwise the first
/// format listed.
pub open spec fn selected_format(s: Seq<FormatId>) -> FormatId {
    if has_srgb(s) {
        s[first_srgb_index(s)]
    } else {
        s[0]
    }
}

/// When a list contains a gamma-corrected format, `first_srgb_index` lands on
/// the earliest one: the entry there is gamma-corrected and every entry before
/// it is not.
pub proof fn lemma_first_srgb_index(s: Seq<FormatId>)
    requires
        has_srgb(s),
    ensures
        0 <= first_srgb_index(s) < s.len(),
        s[first_srgb_index(s)].srgb,
        forall|j: int| 0 <= j < first_srgb_index(s) ==> !s[j].srgb,
    decreases s.len(),
{
    if s[0].srgb {
    } else {
        let t = s.skip(1);
        assert(has_srgb(t)) by {
            let w = choose|i: int| 0 <= i < s.len() && s[i].srgb;
            assert(t[w - 1].srgb);
        }
        lemma_first_srgb_index(t);
        assert forall|j: int| 0 <= j < first_srgb_index(s) implies !s[j].srgb by {
            if j > 0 {
                assert(!t[j - 1].srgb);
            }
        }
    }
}

/// Gamma preference law: whenever the capability list offers a
/// gamma-corrected format, the selected format is gamma-corrected; when it
/// offers none, the selection is the first format listed.
pub proof fn lemma_gamma_preference(s: Seq<FormatId>)
    requires
        s.len() > 0,
    ensures
        has_srgb(s) ==> selected_format(s).srgb,
        !has_srgb(s) ==> selected_format(s) == s[0],
{
    if has_srgb(s) {
        lemma_first_srgb_index(s);
    }
}

/// Scan the capability list for the format to configure the surface with:
/// the first gamma-corrected format, or the first format when none is.
pub fn choose_format(formats: &Vec<FormatId>) -> (r: FormatId)
    requires
        formats@.len() > 0,
    ensures
        r == selected_format(formats@),
{
    let n: usize = formats.len();
    let mut i: usize = 0;
    while i < n
        invariant
            n == formats@.len(),
            0 <= i <= n,
            forall|j: int| 0 <= j < i ==> !formats@[j].srgb,
        decreases n - i,
    {
        if formats[i].srgb {
            proof {
                lemma_first_srgb_index(formats@);
            }
            return formats[i];
        }
        i = i + 1;
    }
    formats[0]
}

} // verus!
