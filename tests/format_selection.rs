use gfx_hal::format::Format;
use haltut::format::FormatError;
use haltut::format::choose_surface_format;
use haltut::format::first_srgb_format;
use haltut::format::is_srgb;
use haltut::format::pick_first_marked;

#[test]
fn srgb_format_preferred_over_linear() {
    let formats = vec![Format::Rgba8Unorm, Format::Rgba8Srgb];
    assert_eq!(choose_surface_format(Some(formats)), Ok(Format::Rgba8Srgb));
}

#[test]
fn no_preference_gives_default_srgb() {
    assert_eq!(choose_surface_format(None), Ok(Format::Rgba8Srgb));
}

#[test]
fn empty_list_gives_default_srgb() {
    assert_eq!(choose_surface_format(Some(vec![])), Ok(Format::Rgba8Srgb));
}

#[test]
fn first_of_several_srgb_formats_wins() {
    let formats = vec![Format::Bgra8Unorm, Format::Bgra8Srgb, Format::Rgba8Srgb];
    assert_eq!(choose_surface_format(Some(formats)), Ok(Format::Bgra8Srgb));
}

#[test]
fn list_without_srgb_is_an_error() {
    let formats = vec![Format::Rgba8Unorm, Format::Bgra8Unorm, Format::Rgba32Sfloat];
    assert_eq!(choose_surface_format(Some(formats)), Err(FormatError::NoSrgbFormat));
}

#[test]
fn srgb_test_reads_format_table() {
    assert!(is_srgb(Format::Rgba8Srgb));
    assert!(is_srgb(Format::Bgra8Srgb));
    assert!(!is_srgb(Format::Rgba8Unorm));
    assert!(!is_srgb(Format::Rgba32Sfloat));
}

#[test]
fn first_srgb_format_scans_in_order() {
    assert_eq!(first_srgb_format(&vec![]), None);
    assert_eq!(first_srgb_format(&vec![Format::Rgba8Unorm]), None);
    assert_eq!(first_srgb_format(&vec![Format::Rgba8Unorm, Format::Rgba8Srgb, Format::Bgra8Srgb]), Some(Format::Rgba8Srgb));
}

#[test]
fn pick_first_marked_follows_marks_not_table() {
    let formats = vec![Format::Rgba8Unorm, Format::Bgra8Unorm, Format::Rgba8Srgb];
    assert_eq!(pick_first_marked(&formats, &vec![false, true, true]), Some(Format::Bgra8Unorm));
    assert_eq!(pick_first_marked(&formats, &vec![false, false, false]), None);
    assert_eq!(pick_first_marked(&vec![], &vec![]), None);
}
