//! What a camera offers: its formats, its frame sizes and its frame intervals.
use vstd::prelude::*;
use x_variant::Variant;

use crate::error::{DeviceError, DeviceErrorView};
use crate::fourcc::{FOURCC_MJPEG, FOURCC_NV12, FOURCC_YU12, FOURCC_YUYV};
use crate::variant::{array_dicts, dict_numbers, dict_set_uint32, is_array, Numbers};
use crate::video::{
    encode_format, format_code, fourcc_format, law_code_requests_its_format,
    law_fourcc_names_one_format, requested_fourcc, video_format_of, VideoFormat,
};

verus! {

/// The size of a frame in pixels.
#[derive(Clone, Copy, Debug, PartialEq, Eq, Structural)]
pub struct Size {
    pub width: u32,
    pub height: u32,
}

/// A pixel format of a camera with the frame sizes that it comes in.
#[derive(Debug, PartialEq, Eq)]
pub struct CameraFormat {
    pub fourcc: u32,
    pub sizes: Vec<Size>,
}

/// The entry of a format list for one format in one size.
pub open spec fn format_entry(format: VideoFormat, size: Size) -> Numbers {
    Map::empty().insert("format"@, format_code(format) as u32).insert("width"@, size.width).insert(
        "height"@,
        size.height,
    )
}

/// The entries for one pixel format of a camera, one for each of its sizes. A
/// format that the backend does not deal in has none.
pub open spec fn entries_of(format: CameraFormat) -> Seq<Numbers> {
    match fourcc_format(format.fourcc) {
        Some(video_format) => format.sizes@.map_values(|size: Size| format_entry(video_format, size)),
        None => Seq::empty(),
    }
}

/// The entries of the format list of a camera: format by format, size by size, in
/// the order in which the camera names them.
pub open spec fn format_entries(formats: Seq<CameraFormat>) -> Seq<Numbers> {
    formats.flat_map(|format: CameraFormat| entries_of(format))
}

/// Makes the entry of a format list for one format in one size.
fn make_entry(format: VideoFormat, size: Size) -> (entry: Variant)
    ensures
        dict_numbers(entry) == format_entry(format, size),
{
    let mut entry = Variant::new_dict();
    dict_set_uint32(&mut entry, "format", encode_format(format));
    dict_set_uint32(&mut entry, "width", size.width);
    dict_set_uint32(&mut entry, "height", size.height);
    entry
}

/// Lists what a camera offers, as an array of dictionaries that each name a
/// `format` by its code, a `width` and a `height`.
pub fn list_formats(formats: &Vec<CameraFormat>) -> (list: Variant)
    ensures
        is_array(list),
        array_dicts(list) == format_entries(formats@),
{
    let ghost entries = |format: CameraFormat| entries_of(format);
    let mut list = Variant::new_array();
    assert(formats@.take(0).flat_map(entries) == Seq::<Numbers>::empty());
    for i in 0..formats.len()
        invariant
            entries == (|format: CameraFormat| entries_of(format)),
            is_array(list),
            array_dicts(list) == formats@.take(i as int).flat_map(entries),
    {
        let ghost listed = array_dicts(list);
        let format = &formats[i];
        match video_format_of(format.fourcc) {
            Some(video_format) => {
                for j in 0..format.sizes.len()
                    invariant
                        is_array(list),
                        i < formats.len(),
                        *format == formats@[i as int],
                        fourcc_format(format.fourcc) == Some(video_format),
                        array_dicts(list) == listed + entries_of(*format).take(j as int),
                {
                    list.array_add(make_entry(video_format, format.sizes[j]));
                    assert(entries_of(*format).take(j + 1) == entries_of(*format).take(
                        j as int,
                    ).push(format_entry(video_format, format.sizes@[j as int])));
                }
                assert(entries_of(*format).take(format.sizes@.len() as int) == entries_of(*format));
            },
            None => {},
        }
        proof {
            let taken = formats@.take(i as int);
            assert(formats@.take(i + 1) == taken.push(*format));
            assert(taken.push(*format).map_values(entries) == taken.map_values(entries).push(
                entries(*format),
            ));
            taken.map_values(entries).lemma_flatten_push(entries(*format));
            assert(array_dicts(list) == listed + entries_of(*format));
        }
    }
    assert(formats@.take(formats@.len() as int) == formats@);
    list
}

/// How many sizes the first of a row of camera formats come in, counting those alone
/// that the backend deals in.
pub open spec fn sizes_listed(formats: Seq<CameraFormat>, count: int) -> int
    decreases count,
{
    if count <= 0 {
        0
    } else {
        let fourcc = formats[count - 1].fourcc;
        sizes_listed(formats, count - 1) + if fourcc == FOURCC_NV12 || fourcc == FOURCC_YU12
            || fourcc == FOURCC_YUYV || fourcc == FOURCC_MJPEG {
            formats[count - 1].sizes@.len() as int
        } else {
            0
        }
    }
}

/// One more format puts its entries behind the others.
proof fn lemma_one_more_format(formats: Seq<CameraFormat>)
    requires
        formats.len() > 0,
    ensures
        format_entries(formats) == format_entries(formats.drop_last()) + entries_of(formats.last()),
{
    let entries = |format: CameraFormat| entries_of(format);
    let before = formats.drop_last();
    assert(formats.map_values(entries) =~= before.map_values(entries).push(
        entries(formats.last()),
    ));
    before.map_values(entries).lemma_flatten_push(entries(formats.last()));
}

/// What is counted among the first formats does not depend on those behind them.
proof fn lemma_sizes_listed_before(formats: Seq<CameraFormat>, count: int)
    requires
        count < formats.len(),
    ensures
        sizes_listed(formats, count) == sizes_listed(formats.drop_last(), count),
        sizes_listed(formats, count) >= 0,
    decreases count,
{
    if count > 0 {
        lemma_sizes_listed_before(formats, count - 1);
    }
}

/// A format list has as many entries as the formats that the backend deals in have
/// sizes.
pub proof fn law_list_has_an_entry_for_each_size(formats: Seq<CameraFormat>)
    ensures
        format_entries(formats).len() == sizes_listed(formats, formats.len() as int),
    decreases formats.len(),
{
    if formats.len() > 0 {
        law_list_has_an_entry_for_each_size(formats.drop_last());
        lemma_one_more_format(formats);
        lemma_sizes_listed_before(formats, formats.len() - 1);
    } else {
        assert(formats.map_values(|format: CameraFormat| entries_of(format)) =~= Seq::empty());
    }
}

/// Each size of each format that the backend deals in is listed, in order: behind all
/// sizes that come before it stands an entry with its width, its height, a code that
/// selects its format, and nothing else.
pub proof fn law_each_size_is_listed_in_its_place(formats: Seq<CameraFormat>, i: int, j: int)
    requires
        0 <= i < formats.len(),
        0 <= j < formats[i].sizes@.len(),
        ({
            let fourcc = formats[i].fourcc;
            fourcc == FOURCC_NV12 || fourcc == FOURCC_YU12 || fourcc == FOURCC_YUYV || fourcc
                == FOURCC_MJPEG
        }),
    ensures
        ({
            let place = sizes_listed(formats, i) + j;
            let entry = format_entries(formats)[place];
            let size = formats[i].sizes@[j];
            &&& 0 <= place < format_entries(formats).len()
            &&& entry.get("width"@) == Some(size.width)
            &&& entry.get("height"@) == Some(size.height)
            &&& entry.get("format"@) is Some
            &&& requested_fourcc(entry.get("format"@)) == Some(formats[i].fourcc)
            &&& forall|key: Seq<char>| #[trigger]
                entry.dom().contains(key) ==> key == "width"@ || key == "height"@ || key
                    == "format"@
        }),
    decreases formats.len(),
{
    let before = formats.drop_last();
    lemma_one_more_format(formats);
    lemma_sizes_listed_before(formats, i);
    law_list_has_an_entry_for_each_size(before);
    if i < before.len() {
        law_each_size_is_listed_in_its_place(before, i, j);
    } else {
        let format = fourcc_format(formats[i].fourcc)->0;
        law_code_requests_its_format(format);
        law_fourcc_names_one_format(formats[i].fourcc, format);
        reveal_strlit("format");
        reveal_strlit("width");
        reveal_strlit("height");
        assert("format"@.len() == 6 && "width"@.len() == 5 && "height"@.len() == 6);
        assert("format"@[0] != "height"@[0]);
        assert(format_entries(formats)[sizes_listed(formats, i) + j] == format_entry(
            format,
            formats[i].sizes@[j],
        ));
    }
}

/// The value of a camera control.
#[derive(Debug, PartialEq, Eq)]
pub enum ControlValue {
    /// A row of 64-bit integers.
    Int64(Vec<i64>),
    /// A value of any other type.
    Other,
}

/// The limits of the frame duration control, in microseconds.
#[derive(Debug, PartialEq, Eq)]
pub struct FrameDurationLimits {
    pub min: ControlValue,
    pub max: ControlValue,
    pub default: ControlValue,
}

impl FrameDurationLimits {
    /// Whether all three limits are rows of integers.
    pub open spec fn are_int64(self) -> bool {
        self.min is Int64 && self.max is Int64 && self.default is Int64
    }

    /// Limits that are all rows of integers have at least one integer each.
    pub open spec fn wf(self) -> bool {
        self.are_int64() ==> self.min->0@.len() > 0 && self.max->0@.len() > 0
            && self.default->0@.len() > 0
    }

    /// Tells whether the limits can be read: that they are not all rows of integers,
    /// or that no row is empty.
    pub fn are_usable(&self) -> (usable: bool)
        ensures
            usable == self.wf(),
    {
        match (&self.min, &self.max, &self.default) {
            (
                ControlValue::Int64(min),
                ControlValue::Int64(max),
                ControlValue::Int64(default),
            ) => min.len() > 0 && max.len() > 0 && default.len() > 0,
            _ => true,
        }
    }
}

/// The frame intervals that a camera is listed with, in microseconds, in the order
/// of the frame rates that they stand for: lowest, highest, default.
#[derive(Clone, Copy, Debug, PartialEq, Eq, Structural)]
pub struct FrameIntervals {
    pub max: i64,
    pub min: i64,
    pub default: i64,
}

/// The frame intervals that the frame duration control of a camera gives: the
/// first integer of each limit.
pub open spec fn intervals_of(limits: Option<FrameDurationLimits>) -> Result<
    FrameIntervals,
    DeviceErrorView,
> {
    match limits {
        None => Err(DeviceErrorView::GetFailed("No 'frame duration limits' control"@)),
        Some(limits) => if limits.are_int64() {
            Ok(
                FrameIntervals {
                    max: limits.max->0@[0],
                    min: limits.min->0@[0],
                    default: limits.default->0@[0],
                },
            )
        } else {
            Err(DeviceErrorView::GetFailed("Unexpected types for frame duration limits"@))
        },
    }
}

/// Limits that are rows of integers give their first integers, whatever these are: the
/// longest interval is that of `max`, the shortest that of `min`. Nothing is cut off,
/// replaced or swapped, and what stands behind the first integers does not count.
pub proof fn law_intervals_are_the_first_integers(
    min: Vec<i64>,
    max: Vec<i64>,
    default: Vec<i64>,
)
    requires
        min@.len() > 0,
        max@.len() > 0,
        default@.len() > 0,
    ensures
        ({
            let limits = FrameDurationLimits {
                min: ControlValue::Int64(min),
                max: ControlValue::Int64(max),
                default: ControlValue::Int64(default),
            };
            &&& limits.wf()
            &&& intervals_of(Some(limits)) matches Ok(intervals)
            &&& intervals.min == min@[0]
            &&& intervals.max == max@[0]
            &&& intervals.default == default@[0]
        }),
{
}

/// Intervals come out exactly where all three limits are rows of integers. Limits of
/// other types, and a camera without limits, each have an error of their own, and both
/// can be dealt with.
pub proof fn law_other_limits_have_no_intervals(limits: FrameDurationLimits)
    ensures
        intervals_of(Some(limits)) is Ok <==> limits.min is Int64 && limits.max is Int64
            && limits.default is Int64,
        intervals_of(Some(limits)) matches Err(error) ==> limits.wf() && error
            == DeviceErrorView::GetFailed("Unexpected types for frame duration limits"@),
        intervals_of(None) == Err::<FrameIntervals, DeviceErrorView>(
            DeviceErrorView::GetFailed("No 'frame duration limits' control"@),
        ),
{
}

/// Reads the frame intervals from the limits of the frame duration control, which
/// a camera may not have.
pub fn frame_intervals(limits: &Option<FrameDurationLimits>) -> (intervals: Result<
    FrameIntervals,
    DeviceError,
>)
    requires
        limits matches Some(limits) ==> limits.wf(),
    ensures
        crate::error::result_view(intervals) == intervals_of(*limits),
{
    match limits {
        None => Err(DeviceError::GetFailed("No 'frame duration limits' control".to_owned())),
        Some(limits) => match (&limits.min, &limits.max, &limits.default) {
            (
                ControlValue::Int64(min),
                ControlValue::Int64(max),
                ControlValue::Int64(default),
            ) => Ok(FrameIntervals { max: max[0], min: min[0], default: default[0] }),
            _ => Err(
                DeviceError::GetFailed("Unexpected types for frame duration limits".to_owned()),
            ),
        },
    }
}

} // verus!
