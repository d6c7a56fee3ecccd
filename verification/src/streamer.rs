//! The streamer: captures a V4L2 camera, encodes it to H.264 and sends it as RTP
//! over UDP to a host and port.

use vstd::prelude::*;
use crate::cli::{arg, concat3, usage_line, usage_text};
use crate::pipeline::{
    bare_element, element, linear, linear_container, plain_element, text, text_property, ContainerKind, ElementSpec, PipelineSpec,
    Property,
    PipelineView,
};

verus! {

/// The streamer's command-line arguments: `streamer DEVICE IP PORT`.
#[derive(Debug)]
pub struct StreamerArgs {
    pub device: String,
    pub ip: String,
    pub port: String,
}

/// The number of command-line words the streamer needs, the program name included.
pub const STREAMER_ARG_COUNT: usize = 4;

/// The streamer's pipeline: `v4l2src ! videoconvert ! x264enc ! rtph264pay ! udpsink`,
/// reading from `device` and sending to `ip`:`port`.
pub open spec fn streamer_pipeline(device: Seq<char>, ip: Seq<char>, port: Seq<char>) -> PipelineView {
    linear(
        ContainerKind::Pipeline,
        Some("basic streamer"@),
        seq![
            plain_element("v4l2src"@, seq![text_property("device"@, device)]),
            plain_element("videoconvert"@, seq![]),
            plain_element("x264enc"@, seq![]),
            plain_element("rtph264pay"@, seq![]),
            plain_element("udpsink"@, seq![text_property("host"@, ip), text_property("port"@, port)]),
        ],
    )
}

/// Describes the streamer's pipeline for the given camera device and destination.
pub fn create_pipeline(device: &String, ip: &String, port: &String) -> (p: PipelineSpec)
    ensures
        p@ == streamer_pipeline(device@, ip@, port@),
        p.kind == ContainerKind::Pipeline,
        p@.elements.len() == 5,
        p@.elements[0].factory == "v4l2src"@,
        p@.elements[0].properties == seq![text_property("device"@, device@)],
        p@.elements[4].factory == "udpsink"@,
        p@.elements[4].properties == seq![text_property("host"@, ip@), text_property("port"@, port@)],
{
    let src_props = vec![text("device", device.as_str())];
    assert(src_props@.map_values(|q: Property| q@) =~= seq![text_property("device"@, device@)]);
    let src = element("v4l2src", src_props);
    let conv = bare_element("videoconvert");
    let enc = bare_element("x264enc");
    let pay = bare_element("rtph264pay");
    let sink_props = vec![text("host", ip.as_str()), text("port", port.as_str())];
    assert(sink_props@.map_values(|q: Property| q@) =~= seq![text_property("host"@, ip@), text_property("port"@, port@)]);
    let sink = element("udpsink", sink_props);
    let elements = vec![src, conv, enc, pay, sink];
    let ghost expected = streamer_pipeline(device@, ip@, port@);
    assert(elements@.map_values(|e: ElementSpec| e@) =~= expected.elements);
    let p = linear_container(ContainerKind::Pipeline, Some(String::from_str("basic streamer")), elements);
    p
}

/// Takes the device, IP address and port from `streamer DEVICE IP PORT`; `None` when
/// fewer than three arguments follow the program name. Extra arguments are ignored.
pub fn parse_args(args: &Vec<String>) -> (r: Option<StreamerArgs>)
    ensures
        r is Some <==> args@.len() >= STREAMER_ARG_COUNT,
        r matches Some(a) ==> {
            &&& a.device@ == args@[1]@
            &&& a.ip@ == args@[2]@
            &&& a.port@ == args@[3]@
        },
{
    if args.len() < STREAMER_ARG_COUNT {
        None
    } else {
        Some(StreamerArgs { device: arg(args, 1), ip: arg(args, 2), port: arg(args, 3) })
    }
}

/// The usage line: `Usage: PROGRAM device ipv4 port`.
pub fn usage(args: &Vec<String>) -> (s: String)
    requires
        args@.len() >= 1,
    ensures
        s@ == usage_text(args@[0]@, "device ipv4 port"@),
{
    usage_line(args, "device ipv4 port")
}

/// The line announcing the stream: `Streaming DEVICE to IP:PORT...`.
pub fn streaming_message(device: &String, ip: &String, port: &String) -> (s: String)
    ensures
        s@ == "Streaming "@ + device@ + " to "@ + ip@ + ":"@ + port@ + "..."@,
{
    let mut s = concat3("Streaming ", device.as_str(), " to ");
    s.append(ip.as_str());
    s.append(":");
    s.append(port.as_str());
    s.append("...");
    s
}

} // verus!
