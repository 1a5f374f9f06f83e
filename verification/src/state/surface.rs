//! Which of the formats that a surface offers it is configured with.
//!
//! A surface lists the texture formats it can present, the one it likes best
//! first. The map is drawn with sRGB colours, so the first sRGB format of
//! the list is taken, and the first format of all where the list has no
//! sRGB one. An empty list means that the surface cannot be drawn to.
use vstd::prelude::*;

verus! {

/// `wgpu::TextureFormat`, taken as it comes: formats are told apart and
/// handed on, and nothing here looks into one.
#[verifier::external_type_specification]
#[verifier::external_body]
pub struct ExTextureFormat(wgpu::TextureFormat);

/// What `wgpu::TextureFormat::is_srgb` answers for `format`: whether it
/// stores its colours sRGB-encoded.
pub uninterp spec fn is_srgb_format(format: wgpu::TextureFormat) -> bool;

/// `wgpu::TextureFormat::is_srgb`: whether the format is one of those that
/// carry the `Srgb` suffix. The answer depends on the format alone, which is
/// all that is claimed here.
#[verifier::external_body]
fn is_srgb(format: &wgpu::TextureFormat) -> (srgb: bool)
    ensures
        srgb == is_srgb_format(*format),
{
    format.is_srgb()
}

/// For each format of `formats`, in order, whether it is an sRGB format.
pub open spec fn srgb_flags(formats: Seq<wgpu::TextureFormat>) -> Seq<bool> {
    Seq::new(formats.len(), |i: int| is_srgb_format(formats[i]))
}

/// Whether `srgb` marks any format as sRGB.
pub open spec fn has_srgb(srgb: Seq<bool>) -> bool {
    exists|j: int| 0 <= j < srgb.len() && srgb[j]
}

/// Whether `i` is the place of the preferred format in a list whose sRGB
/// formats are marked by `srgb`: that of the first sRGB format, or the first
/// place of all where no format is sRGB.
pub open spec fn is_preferred(srgb: Seq<bool>, i: int) -> bool {
    &&& 0 <= i < srgb.len()
    &&& if has_srgb(srgb) {
        srgb[i] && forall|j: int| 0 <= j < i ==> !srgb[j]
    } else {
        i == 0
    }
}

/// No list has two preferred places.
pub proof fn lemma_preferred_is_unique(srgb: Seq<bool>, i: int, j: int)
    requires
        is_preferred(srgb, i),
        is_preferred(srgb, j),
    ensures
        i == j,
{
}

/// Every list but the empty one has a preferred place.
pub proof fn lemma_preferred_exists(srgb: Seq<bool>)
    requires
        srgb.len() > 0,
    ensures
        exists|i: int| is_preferred(srgb, i),
    decreases srgb.len(),
{
    if !has_srgb(srgb) {
        assert(is_preferred(srgb, 0));
    } else if srgb[0] {
        assert(is_preferred(srgb, 0));
    } else {
        let rest = srgb.subrange(1, srgb.len() as int);
        let w = choose|j: int| 0 <= j < srgb.len() && srgb[j];
        assert(rest[w - 1]);
        lemma_preferred_exists(rest);
        let k = choose|k: int| is_preferred(rest, k);
        assert forall|j: int| 0 <= j < k + 1 implies !srgb[j] by {
            if j > 0 {
                assert(!rest[j - 1]);
            }
        }
        assert(is_preferred(srgb, k + 1));
    }
}

/// The place of the preferred format in a list whose sRGB formats are marked
/// by `srgb`, and `None` for the empty list.
pub fn preferred_index(srgb: &Vec<bool>) -> (choice: Option<usize>)
    ensures
        match choice {
            Some(i) => is_preferred(srgb@, i as int),
            None => srgb.len() == 0,
        },
{
    if srgb.len() == 0 {
        return None;
    }
    let mut i: usize = 0;
    while i < srgb.len()
        invariant
            i <= srgb.len(),
            forall|j: int| 0 <= j < i ==> !srgb@[j],
        decreases srgb.len() - i,
    {
        if srgb[i] {
            return Some(i);
        }
        i += 1;
    }
    Some(0)
}

/// The format of `formats` that the surface is configured with: the first
/// sRGB format, or the first format of all where none is sRGB. `None` says
/// that the surface offers no format at all.
pub fn preferred_format(formats: &Vec<wgpu::TextureFormat>) -> (choice: Option<
    wgpu::TextureFormat,
>)
    ensures
        match choice {
            Some(format) => exists|i: int|
                is_preferred(srgb_flags(formats@), i) && format == formats@[i],
            None => formats.len() == 0,
        },
{
    let mut srgb: Vec<bool> = Vec::new();
    let mut i: usize = 0;
    while i < formats.len()
        invariant
            i <= formats.len(),
            srgb@ == srgb_flags(formats@.take(i as int)),
        decreases formats.len() - i,
    {
        let flag: bool = is_srgb(&formats[i]);
        srgb.push(flag);
        proof {
            assert(formats@.take(i + 1).drop_last() == formats@.take(i as int));
            assert(srgb@ == srgb_flags(formats@.take(i + 1)));
        }
        i += 1;
    }
    proof {
        assert(formats@.take(formats.len() as int) == formats@);
    }
    match preferred_index(&srgb) {
        Some(k) => Some(formats[k]),
        None => None,
    }
}

} // verus!
