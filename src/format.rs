//! Choice of the swapchain's colour format from what a surface reports.

use vstd::prelude::*;
use gfx_hal::format::ChannelType;
use gfx_hal::format::Format;

verus! {

/// gfx-hal's pixel formats, declared with their variants, none of which
/// carries data, so that contracts can name a format.
#[verifier::external_type_specification]
pub struct ExFormat(Format);

/// gfx-hal's channel interpretations, declared with their variants.
#[verifier::external_type_specification]
pub struct ExChannelType(ChannelType);

/// The channel interpretation that gfx-hal's format table gives a format.
pub uninterp spec fn channel_of(format: Format) -> ChannelType;

/// Relies on gfx_hal::format::Format::base_format: the channel half of the
/// table entry for the format, a function of the format alone. The lookup
/// panics on the hidden end-of-table marker, which `requires` leaves out.
#[verifier::external_body]
fn channel_type(format: Format) -> (r: ChannelType)
    requires
        format != Format::__NumFormats,
    ensures
        r == channel_of(format),
{
    format.base_format().1
}

/// The format that a surface without a preference is given.
pub open spec fn fallback_format() -> Format {
    Format::Rgba8Srgb
}

/// A format whose colour channels are sRGB-encoded.
pub open spec fn is_srgb_format(format: Format) -> bool {
    format != Format::__NumFormats && channel_of(format) == ChannelType::Srgb
}

/// The first sRGB-encoded format of `formats`, if any.
pub open spec fn first_srgb(formats: Seq<Format>) -> Option<Format>
    decreases formats.len(),
{
    if formats.len() == 0 {
        None
    } else if is_srgb_format(formats[0]) {
        Some(formats[0])
    } else {
        first_srgb(formats.drop_first())
    }
}

/// Why no surface format could be chosen.
#[derive(Clone, Copy, Debug, PartialEq, Eq, Structural)]
pub enum FormatError {
    /// The surface lists formats, and none of them is sRGB-encoded.
    NoSrgbFormat,
}

/// The format chosen for a surface that reports `formats`: the first sRGB
/// one; the fallback where the surface has no preference or lists nothing.
pub open spec fn selected_format(formats: Option<Seq<Format>>) -> Result<Format, FormatError> {
    match formats {
        None => Ok(fallback_format()),
        Some(list) => if list.len() == 0 {
            Ok(fallback_format())
        } else {
            match first_srgb(list) {
                Some(f) => Ok(f),
                None => Err(FormatError::NoSrgbFormat),
            }
        },
    }
}

/// Whether the colour channels of `format` are sRGB-encoded.
pub fn is_srgb(format: Format) -> (r: bool)
    ensures
        r == is_srgb_format(format),
{
    match format {
        Format::__NumFormats => false,
        _ => match channel_type(format) {
            ChannelType::Srgb => true,
            _ => false,
        },
    }
}

/// The first format of `formats` whose mark is set.
pub open spec fn first_marked(formats: Seq<Format>, marks: Seq<bool>) -> Option<Format>
    decreases formats.len(),
{
    if formats.len() == 0 || marks.len() == 0 {
        None
    } else if marks[0] {
        Some(formats[0])
    } else {
        first_marked(formats.drop_first(), marks.drop_first())
    }
}

proof fn lemma_first_srgb_is_first_marked(formats: Seq<Format>, marks: Seq<bool>)
    requires
        formats.len() == marks.len(),
        forall|i: int| 0 <= i < formats.len() ==> marks[i] == is_srgb_format(#[trigger] formats[i]),
    ensures
        first_srgb(formats) == first_marked(formats, marks),
    decreases formats.len(),
{
    if formats.len() > 0 {
        let (f, m) = (formats.drop_first(), marks.drop_first());
        assert forall|i: int| 0 <= i < f.len() implies m[i] == is_srgb_format(#[trigger] f[i]) by {
            assert(f[i] == formats[i + 1]);
        }
        lemma_first_srgb_is_first_marked(f, m);
    }
}

/// Picks the first format of `formats` whose mark in `marks` is set.
pub fn pick_first_marked(formats: &Vec<Format>, marks: &Vec<bool>) -> (r: Option<Format>)
    requires
        formats@.len() == marks@.len(),
    ensures
        r == first_marked(formats@, marks@),
{
    let n = formats.len();
    let mut i: usize = 0;
    assert(formats@.subrange(0, n as int) =~= formats@);
    assert(marks@.subrange(0, n as int) =~= marks@);
    while i < n
        invariant
            n == formats@.len(),
            n == marks@.len(),
            i <= n,
            first_marked(formats@, marks@) == first_marked(
                formats@.subrange(i as int, n as int),
                marks@.subrange(i as int, n as int),
            ),
        decreases n - i,
    {
        assert(formats@.subrange(i as int, n as int).drop_first() =~= formats@.subrange(
            i + 1,
            n as int,
        ));
        assert(marks@.subrange(i as int, n as int).drop_first() =~= marks@.subrange(
            i + 1,
            n as int,
        ));
        if marks[i] {
            return Some(formats[i]);
        }
        i = i + 1;
    }
    None
}

/// Picks the first sRGB-encoded format of `formats`.
pub fn first_srgb_format(formats: &Vec<Format>) -> (r: Option<Format>)
    ensures
        r == first_srgb(formats@),
{
    let mut marks: Vec<bool> = Vec::new();
    let mut i: usize = 0;
    while i < formats.len()
        invariant
            i <= formats@.len(),
            marks@.len() == i,
            forall|j: int| 0 <= j < i ==> marks@[j] == is_srgb_format(#[trigger] formats@[j]),
        decreases formats@.len() - i,
    {
        marks.push(is_srgb(formats[i]));
        i = i + 1;
    }
    proof {
        lemma_first_srgb_is_first_marked(formats@, marks@);
    }
    pick_first_marked(formats, &marks)
}

/// Chooses the colour format of the swapchain from what the surface reports:
/// the first sRGB-encoded format it lists, or `Rgba8Srgb` where it reports
/// none; a list without any sRGB format is an error.
pub fn choose_surface_format(formats: Option<Vec<Format>>) -> (r: Result<Format, FormatError>)
    ensures
        r == selected_format(
            match formats {
                Some(v) => Some(v@),
                None => None,
            },
        ),
{
    match formats {
        None => Ok(Format::Rgba8Srgb),
        Some(list) => {
            if list.len() == 0 {
                Ok(Format::Rgba8Srgb)
            } else {
                match first_srgb_format(&list) {
                    Some(f) => Ok(f),
                    None => Err(FormatError::NoSrgbFormat),
                }
            }
        },
    }
}

} // verus!
