//! The receiver: listens for the streamer's RTP/H.264 stream on a UDP port, decodes
//! it and shows it on screen.

use vstd::prelude::*;
use crate::cli::{arg, concat3, usage_line, usage_text};
use crate::pipeline::{
    bare_element, element, linear, linear_container, plain_element, text, text_property, ContainerKind,
    ElementSpec, PipelineSpec, PipelineView, Property,
};

verus! {

/// The receiver's command-line arguments: `receiver PORT`.
#[derive(Debug)]
pub struct ReceiverArgs {
    pub port: String,
}

/// The number of command-line words the receiver needs, the program name included.
pub const RECEIVER_ARG_COUNT: usize = 2;

/// The caps the receiver expects on its UDP source: RTP carrying H.264 video with
/// payload type 96.
pub open spec fn rtp_h264_caps() -> Seq<char> {
    "application/x-rtp, media=(string)video, clock-rate=(int)90000, encoding-name=(string)H264, payload=(int)96"@
}

/// The receiver's pipeline: `udpsrc ! rtph264depay ! decodebin ! videoconvert ! autovideosink`,
/// listening on `port`.
pub open spec fn receiver_pipeline(port: Seq<char>) -> PipelineView {
    linear(
        ContainerKind::Pipeline,
        Some("basic stream receiver"@),
        seq![
            plain_element("udpsrc"@, seq![text_property("port"@, port), text_property("caps"@, rtp_h264_caps())]),
            plain_element("rtph264depay"@, seq![]),
            plain_element("decodebin"@, seq![]),
            plain_element("videoconvert"@, seq![]),
            plain_element("autovideosink"@, seq![]),
        ],
    )
}

/// Describes the receiver's pipeline for the given UDP port.
pub fn create_pipeline(port: &String) -> (p: PipelineSpec)
    ensures
        p@ == receiver_pipeline(port@),
        p.kind == ContainerKind::Pipeline,
        p@.name == Some("basic stream receiver"@),
        p@.elements.len() == 5,
        p@.elements[0].factory == "udpsrc"@,
        p@.elements[0].properties[0] == text_property("port"@, port@),
{
    let src_props = vec![
        text("port", port.as_str()),
        text("caps", "application/x-rtp, media=(string)video, clock-rate=(int)90000, encoding-name=(string)H264, payload=(int)96"),
    ];
    assert(src_props@.map_values(|q: Property| q@) =~= seq![text_property("port"@, port@), text_property("caps"@, rtp_h264_caps())]);
    let src = element("udpsrc", src_props);
    let depay = bare_element("rtph264depay");
    let dec = bare_element("decodebin");
    let conv = bare_element("videoconvert");
    let sink = bare_element("autovideosink");
    let elements = vec![src, depay, dec, conv, sink];
    let ghost expected = receiver_pipeline(port@);
    assert(elements@.map_values(|e: ElementSpec| e@) =~= expected.elements);
    linear_container(ContainerKind::Pipeline, Some(String::from_str("basic stream receiver")), elements)
}

/// Takes the port from `receiver PORT`; `None` when no argument follows the program
/// name. Extra arguments are ignored.
pub fn parse_args(args: &Vec<String>) -> (r: Option<ReceiverArgs>)
    ensures
        r is Some <==> args@.len() >= RECEIVER_ARG_COUNT,
        r matches Some(a) ==> a.port@ == args@[1]@,
{
    if args.len() < RECEIVER_ARG_COUNT {
        None
    } else {
        Some(ReceiverArgs { port: arg(args, 1) })
    }
}

/// The usage line: `Usage: PROGRAM port`.
pub fn usage(args: &Vec<String>) -> (s: String)
    requires
        args@.len() >= 1,
    ensures
        s@ == usage_text(args@[0]@, "port"@),
{
    usage_line(args, "port")
}

/// The line announcing the receiver: `Listening to stream at port PORT...`.
pub fn listening_message(port: &String) -> (s: String)
    ensures
        s@ == "Listening to stream at port "@ + port@ + "..."@,
{
    concat3("Listening to stream at port ", port.as_str(), "...")
}

} // verus!
