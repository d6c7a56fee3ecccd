//! The recorder: captures a V4L2 camera at 1920x1080, encodes it to H.264 and writes
//! it to an MP4 file, keeping a moov recovery file while recording.

use vstd::prelude::*;
use crate::cli::{arg, concat3, usage_line, usage_text};
use crate::pipeline::{
    bare_element, caps, caps_property, element, linear, linear_container, plain_element, text, text_property,
    ContainerKind, ElementSpec, PipelineSpec, PipelineView, Property,
};

verus! {

/// The recorder's command-line arguments: `recorder DEVICE`.
#[derive(Debug)]
pub struct RecorderArgs {
    pub device: String,
}

/// The number of command-line words the recorder needs, the program name included.
pub const RECORDER_ARG_COUNT: usize = 2;

/// The file the recording is written to.
pub open spec fn video_path() -> Seq<char> {
    "recording.mp4"@
}

/// The moov recovery file kept by the muxer while recording.
pub open spec fn recovery_path() -> Seq<char> {
    "recording.atom"@
}

/// The recorder's pipeline: `v4l2src ! videoscale ! capsfilter ! videoconvert ! queue !
/// x264enc ! mp4mux ! filesink`, capturing `device` scaled to 1920x1080.
pub open spec fn recorder_pipeline(device: Seq<char>) -> PipelineView {
    linear(
        ContainerKind::Pipeline,
        None,
        seq![
            plain_element("v4l2src"@, seq![text_property("device"@, device)]),
            plain_element("videoscale"@, seq![]),
            plain_element("capsfilter"@, seq![caps_property("video/x-raw"@, 1920, 1080)]),
            plain_element("videoconvert"@, seq![]),
            plain_element("queue"@, seq![]),
            plain_element("x264enc"@, seq![]),
            plain_element("mp4mux"@, seq![text_property("moov-recovery-file"@, recovery_path())]),
            plain_element("filesink"@, seq![text_property("location"@, video_path())]),
        ],
    )
}

/// Describes the recorder's pipeline for the given camera device. It always succeeds.
pub fn create_pipeline(device: &String) -> (r: Result<PipelineSpec, ()>)
    ensures
        r matches Ok(p) && p@ == recorder_pipeline(device@),
        r matches Ok(p) && p.kind == ContainerKind::Pipeline && p@.elements.len() == 8
            && p@.elements[0].factory == "v4l2src"@
            && p@.elements[0].properties == seq![text_property("device"@, device@)]
            && p@.elements[7].factory == "filesink"@
            && p@.elements[7].properties == seq![text_property("location"@, "recording.mp4"@)],
{
    let src_props = vec![text("device", device.as_str())];
    assert(src_props@.map_values(|q: Property| q@) =~= seq![text_property("device"@, device@)]);
    let src = element("v4l2src", src_props);
    let scale = bare_element("videoscale");
    let filter_props = vec![caps("video/x-raw", 1920, 1080)];
    assert(filter_props@.map_values(|q: Property| q@) =~= seq![caps_property("video/x-raw"@, 1920, 1080)]);
    let filter = element("capsfilter", filter_props);
    let conv = bare_element("videoconvert");
    let queue = bare_element("queue");
    let enc = bare_element("x264enc");
    let mux_props = vec![text("moov-recovery-file", "recording.atom")];
    assert(mux_props@.map_values(|q: Property| q@) =~= seq![text_property("moov-recovery-file"@, recovery_path())]);
    let mux = element("mp4mux", mux_props);
    let sink_props = vec![text("location", "recording.mp4")];
    assert(sink_props@.map_values(|q: Property| q@) =~= seq![text_property("location"@, video_path())]);
    let sink = element("filesink", sink_props);
    let elements = vec![src, scale, filter, conv, queue, enc, mux, sink];
    let ghost expected = recorder_pipeline(device@);
    assert(elements@.map_values(|e: ElementSpec| e@) =~= expected.elements);
    Ok(linear_container(ContainerKind::Pipeline, None, elements))
}

/// Takes the device from `recorder DEVICE`; `None` when no argument follows the
/// program name. Extra arguments are ignored.
pub fn parse_args(args: &Vec<String>) -> (r: Option<RecorderArgs>)
    ensures
        r is Some <==> args@.len() >= RECORDER_ARG_COUNT,
        r matches Some(a) ==> a.device@ == args@[1]@,
{
    if args.len() < RECORDER_ARG_COUNT {
        None
    } else {
        Some(RecorderArgs { device: arg(args, 1) })
    }
}

/// The usage line: `Usage: PROGRAM device`.
pub fn usage(args: &Vec<String>) -> (s: String)
    requires
        args@.len() >= 1,
    ensures
        s@ == usage_text(args@[0]@, "device"@),
{
    usage_line(args, "device")
}

/// The line announcing the recording: `Recording from DEVICE... (Use Ctrl-C to end recording)`.
pub fn recording_message(device: &String) -> (s: String)
    ensures
        s@ == "Recording from "@ + device@ + "... (Use Ctrl-C to end recording)"@,
{
    concat3("Recording from ", device.as_str(), "... (Use Ctrl-C to end recording)")
}

} // verus!
