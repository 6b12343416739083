//! What a caller asks of a stream.
use vstd::prelude::*;
use x_variant::Variant;

use crate::formats::{entries_of, format_entries, format_entry, CameraFormat, Size};
use crate::variant::{dict_numbers, dict_uint32, Numbers};
use crate::video::{
    format_fourcc, fourcc_format, law_code_requests_its_format, law_fourcc_names_one_format,
    requested_fourcc, select_fourcc, VideoFormat,
};

verus! {

/// The settings to put on a stream. Without a size the stream keeps the one that
/// it has.
#[derive(Clone, Copy, Debug, PartialEq, Eq, Structural)]
pub struct StreamSettings {
    pub size: Option<Size>,
    pub fourcc: u32,
}

/// The size that is asked for: a width alone, or a height alone, asks for none.
pub open spec fn asked_size(width: Option<u32>, height: Option<u32>) -> Option<Size> {
    match (width, height) {
        (Some(width), Some(height)) => Some(Size { width, height }),
        _ => None,
    }
}

/// The settings that are asked for by a width, a height and a format code. `None`
/// where the code stands for a format that the backend does not deal in.
pub open spec fn asked_settings(
    width: Option<u32>,
    height: Option<u32>,
    format: Option<u32>,
) -> Option<StreamSettings> {
    match requested_fourcc(format) {
        Some(fourcc) => Some(StreamSettings { size: asked_size(width, height), fourcc }),
        None => None,
    }
}

/// The settings that are asked for by the numbers in an options dictionary.
pub open spec fn optional_settings(options: Numbers) -> Option<StreamSettings> {
    asked_settings(options.get("width"@), options.get("height"@), options.get("format"@))
}

/// Works out the settings that are asked for by a width, a height and a format
/// code.
pub fn plan_settings(width: Option<u32>, height: Option<u32>, format: Option<u32>) -> (settings:
    Option<StreamSettings>)
    ensures
        settings == asked_settings(width, height, format),
{
    let size = if let (Some(width), Some(height)) = (width, height) {
        Some(Size { width, height })
    } else {
        None
    };
    match select_fourcc(format) {
        Some(fourcc) => Some(StreamSettings { size, fourcc }),
        None => None,
    }
}

/// Works out the settings that are asked for by the `width`, the `height` and the
/// `format` in an options dictionary.
pub fn read_settings(options: &Variant) -> (settings: Option<StreamSettings>)
    ensures
        settings == optional_settings(dict_numbers(*options)),
{
    plan_settings(
        dict_uint32(options, "width"),
        dict_uint32(options, "height"),
        dict_uint32(options, "format"),
    )
}

/// Wherever settings come out at all, their size is the one that a width and a height
/// name together, whatever the format is. A width alone, or a height alone, names no
/// size.
pub proof fn law_size_is_what_was_asked(
    width: Option<u32>,
    height: Option<u32>,
    format: Option<u32>,
)
    ensures
        asked_settings(width, height, format) matches Some(settings) ==> {
            &&& settings.size is Some <==> width is Some && height is Some
            &&& settings.size matches Some(size) ==> Some(size.width) == width && Some(size.height)
                == height
        },
{
}

/// The format alone decides whether settings come out and which four-character code
/// they have; the size that is asked for does not count.
pub proof fn law_size_does_not_change_the_format(
    width: Option<u32>,
    height: Option<u32>,
    other_width: Option<u32>,
    other_height: Option<u32>,
    format: Option<u32>,
)
    ensures
        match (
            asked_settings(width, height, format),
            asked_settings(other_width, other_height, format),
        ) {
            (Some(settings), Some(others)) => settings.fourcc == others.fourcc && requested_fourcc(
                format,
            ) == Some(settings.fourcc),
            (None, None) => requested_fourcc(format) is None,
            _ => false,
        },
{
}

/// Of the options only the `width`, the `height` and the `format` count, and they are
/// what settings are asked for with.
pub proof fn law_only_three_options_count(options: Numbers, others: Numbers)
    requires
        options.get("width"@) == others.get("width"@),
        options.get("height"@) == others.get("height"@),
        options.get("format"@) == others.get("format"@),
    ensures
        optional_settings(options) == optional_settings(others),
        optional_settings(options) is Some <==> requested_fourcc(options.get("format"@)) is Some,
        optional_settings(options) matches Some(settings) ==> {
            &&& requested_fourcc(options.get("format"@)) == Some(settings.fourcc)
            &&& settings.size is Some <==> options.get("width"@) is Some && options.get(
                "height"@,
            ) is Some
            &&& settings.size matches Some(size) ==> Some(size.width) == options.get("width"@)
                && Some(size.height) == options.get("height"@)
        },
{
}

/// An entry of a format list, given back as options, asks for exactly the format
/// and the size that it was listed for.
pub proof fn law_entry_asks_for_what_it_lists(format: VideoFormat, size: Size)
    ensures
        optional_settings(format_entry(format, size)) == Some(
            StreamSettings { size: Some(size), fourcc: format_fourcc(format) },
        ),
{
    law_code_requests_its_format(format);
    reveal_strlit("format");
    reveal_strlit("width");
    reveal_strlit("height");
    assert("format"@.len() == 6 && "width"@.len() == 5 && "height"@.len() == 6);
    assert("format"@[0] != "height"@[0]);
}

/// Whatever a camera lists can be asked for: each entry of its format list, given
/// back as options, asks for a format and a size that the camera named.
pub proof fn law_listed_formats_can_be_asked_for(formats: Seq<CameraFormat>, entry: Numbers)
    requires
        format_entries(formats).contains(entry),
    ensures
        exists|i: int, j: int|
            #![trigger formats[i].sizes@[j]]
            0 <= i < formats.len() && 0 <= j < formats[i].sizes@.len() && optional_settings(entry)
                == Some(
                StreamSettings { size: Some(formats[i].sizes@[j]), fourcc: formats[i].fourcc },
            ),
    decreases formats.len(),
{
    let entries = |format: CameraFormat| entries_of(format);
    if formats.len() == 0 {
        assert(formats.map_values(entries) =~= Seq::<Seq<Numbers>>::empty());
    } else {
        let rest = formats.drop_last();
        assert(formats == rest.push(formats.last()));
        assert(formats.map_values(entries) =~= rest.map_values(entries).push(
            entries(formats.last()),
        ));
        rest.map_values(entries).lemma_flatten_push(entries(formats.last()));
        let k = choose|k: int|
            0 <= k < format_entries(formats).len() && format_entries(formats)[k] == entry;
        if k < format_entries(rest).len() {
            assert(format_entries(rest)[k] == entry);
            law_listed_formats_can_be_asked_for(rest, entry);
            let (i, j) = choose|i: int, j: int|
                #![trigger rest[i].sizes@[j]]
                0 <= i < rest.len() && 0 <= j < rest[i].sizes@.len() && optional_settings(entry)
                    == Some(
                    StreamSettings { size: Some(rest[i].sizes@[j]), fourcc: rest[i].fourcc },
                );
            assert(formats[i].sizes@[j] == rest[i].sizes@[j]);
        } else {
            let j = k - format_entries(rest).len();
            let last = formats.last();
            assert(entries_of(last)[j] == entry);
            let format = fourcc_format(last.fourcc)->0;
            law_fourcc_names_one_format(last.fourcc, format);
            law_entry_asks_for_what_it_lists(format, last.sizes@[j]);
            assert(formats[formats.len() - 1].sizes@[j] == last.sizes@[j]);
        }
    }
}

} // verus!
