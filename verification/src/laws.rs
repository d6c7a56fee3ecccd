//! How the programs fit together: the properties that tie one program's pipeline to
//! another's, and the shape every pipeline shares.

use vstd::prelude::*;
use crate::pipeline::{is_linear_chain, lemma_linear_is_chain, links_in_range, text_property};
use crate::receiver::receiver_pipeline;
use crate::recorder::recorder_pipeline;
use crate::rtsp::{mount_path, stream_url_text};
use crate::rtsp_server::rtsp_server;
use crate::rtsp_server_shm::{capture_pipeline, shm_server, socket_path, source_bin};
use crate::rtsp::SourceView;
use crate::streamer::streamer_pipeline;
use crate::pipeline::{caps_property, ContainerKind, ElementView};
use crate::cli::usage_text;
use crate::rtsp_server::{launch_names_device, lemma_launch_names_device};
use crate::text::{decimal_value, int_decimal, is_numeral, lemma_int_decimal_reads_back};

verus! {

/// Every pipeline and bin the programs build is one linear chain: each element feeds
/// the next, every link joins two distinct elements of the container, and nothing else
/// is linked.
pub proof fn lemma_pipelines_are_chains(device: Seq<char>, ip: Seq<char>, port: Seq<char>, socket: Seq<char>)
    ensures
        is_linear_chain(streamer_pipeline(device, ip, port)),
        links_in_range(streamer_pipeline(device, ip, port)),
        is_linear_chain(receiver_pipeline(port)),
        links_in_range(receiver_pipeline(port)),
        is_linear_chain(recorder_pipeline(device)),
        links_in_range(recorder_pipeline(device)),
        is_linear_chain(capture_pipeline(device)),
        links_in_range(capture_pipeline(device)),
        is_linear_chain(source_bin(socket)),
        links_in_range(source_bin(socket)),
{
    let s = streamer_pipeline(device, ip, port);
    lemma_linear_is_chain(s.kind, s.name, s.elements);
    let r = receiver_pipeline(port);
    lemma_linear_is_chain(r.kind, r.name, r.elements);
    let c = recorder_pipeline(device);
    lemma_linear_is_chain(c.kind, c.name, c.elements);
    let m = capture_pipeline(device);
    lemma_linear_is_chain(m.kind, m.name, m.elements);
    let b = source_bin(socket);
    lemma_linear_is_chain(b.kind, b.name, b.elements);
}

/// A receiver given the streamer's port hears the streamer: the streamer's UDP sink sends
/// to `ip`:`port`, the receiver's UDP source listens on that same `port`, and the RTP
/// H.264 payloader at the end of the streamer is matched by the RTP H.264 depayloader
/// that follows the receiver's source.
pub proof fn lemma_receiver_hears_streamer(device: Seq<char>, ip: Seq<char>, port: Seq<char>)
    ensures
        streamer_pipeline(device, ip, port).elements.last().factory == "udpsink"@,
        streamer_pipeline(device, ip, port).elements.last().properties
            == seq![text_property("host"@, ip), text_property("port"@, port)],
        receiver_pipeline(port).elements[0].factory == "udpsrc"@,
        receiver_pipeline(port).elements[0].properties[0] == text_property("port"@, port),
        streamer_pipeline(device, ip, port).elements[3].factory == "rtph264pay"@,
        receiver_pipeline(port).elements[1].factory == "rtph264depay"@,
{
}

/// The shared-memory server's two halves meet: the capture pipeline writes into the very
/// socket that the served factory's bins read from, and the bins name their payloader
/// `pay0`, the name under which the RTSP server looks for the stream to serve.
pub proof fn lemma_shm_halves_meet(device: Seq<char>, port: Seq<char>)
    ensures
        capture_pipeline(device).elements.last().factory == "shmsink"@,
        capture_pipeline(device).elements.last().properties[0] == text_property("socket-path"@, socket_path()),
        shm_server(port).source == SourceView::SharedMemory(socket_path()),
        source_bin(socket_path()).elements[0].factory == "shmsrc"@,
        source_bin(socket_path()).elements[0].properties[0] == text_property("socket-path"@, socket_path()),
        source_bin(socket_path()).elements.last().name == Some("pay0"@),
{
}

/// The address both servers announce points at the mount point they serve: the path of
/// `rtsp://127.0.0.1:PORT/stream` is the factory's mount path.
pub proof fn lemma_announced_url_is_mounted(device: Seq<char>, port: Seq<char>, bound_port: int)
    ensures
        stream_url_text(bound_port) == "rtsp://127.0.0.1:"@ + int_decimal(bound_port) + rtsp_server(device, port).mount_path,
        stream_url_text(bound_port) == "rtsp://127.0.0.1:"@ + int_decimal(bound_port) + shm_server(port).mount_path,
        rtsp_server(device, port).mount_path == mount_path(),
{
}

/// Each program's pipeline reads from the camera device it is given and, for the
/// streamer and the receiver, uses exactly the host and port it is given; all of them are
/// top-level pipelines, and the shared-memory server's per-client container is a bin.
pub proof fn lemma_pipelines_use_their_arguments(device: Seq<char>, ip: Seq<char>, port: Seq<char>, socket: Seq<char>)
    ensures
        streamer_pipeline(device, ip, port).kind == ContainerKind::Pipeline,
        streamer_pipeline(device, ip, port).elements[0].factory == "v4l2src"@,
        streamer_pipeline(device, ip, port).elements[0].properties == seq![text_property("device"@, device)],
        streamer_pipeline(device, ip, port).elements.last().properties
            == seq![text_property("host"@, ip), text_property("port"@, port)],
        receiver_pipeline(port).kind == ContainerKind::Pipeline,
        receiver_pipeline(port).name == Some("basic stream receiver"@),
        receiver_pipeline(port).elements[0].properties[0] == text_property("port"@, port),
        recorder_pipeline(device).kind == ContainerKind::Pipeline,
        recorder_pipeline(device).elements[0].factory == "v4l2src"@,
        recorder_pipeline(device).elements[0].properties == seq![text_property("device"@, device)],
        recorder_pipeline(device).elements.last().factory == "filesink"@,
        recorder_pipeline(device).elements.last().properties == seq![text_property("location"@, "recording.mp4"@)],
        capture_pipeline(device).kind == ContainerKind::Pipeline,
        capture_pipeline(device).elements[0].factory == "v4l2src"@,
        capture_pipeline(device).elements[0].properties == seq![text_property("device"@, device)],
        source_bin(socket).kind == ContainerKind::Bin,
        source_bin(socket).elements[0].properties == seq![text_property("socket-path"@, socket)],
{
}

/// The stages of each pipeline, in order, and the settings that make them fit: the
/// streamer encodes H.264 and payloads it as RTP for UDP; the receiver depayloads,
/// decodes and shows it; the recorder scales to 1920x1080 and muxes MP4 with a recovery
/// file; the shared-memory capture encodes 640x480 with low latency into the socket; and
/// the per-client bin parses and payloads it as `pay0`.
pub proof fn lemma_pipeline_stages(device: Seq<char>, ip: Seq<char>, port: Seq<char>, socket: Seq<char>)
    ensures
        streamer_pipeline(device, ip, port).elements.map_values(|e: ElementView| e.factory)
            == seq!["v4l2src"@, "videoconvert"@, "x264enc"@, "rtph264pay"@, "udpsink"@],
        receiver_pipeline(port).elements.map_values(|e: ElementView| e.factory)
            == seq!["udpsrc"@, "rtph264depay"@, "decodebin"@, "videoconvert"@, "autovideosink"@],
        receiver_pipeline(port).elements[0].properties[1] == text_property(
            "caps"@,
            "application/x-rtp, media=(string)video, clock-rate=(int)90000, encoding-name=(string)H264, payload=(int)96"@,
        ),
        recorder_pipeline(device).elements.map_values(|e: ElementView| e.factory)
            == seq!["v4l2src"@, "videoscale"@, "capsfilter"@, "videoconvert"@, "queue"@, "x264enc"@, "mp4mux"@, "filesink"@],
        recorder_pipeline(device).elements[2].properties == seq![caps_property("video/x-raw"@, 1920, 1080)],
        recorder_pipeline(device).elements[6].properties == seq![text_property("moov-recovery-file"@, "recording.atom"@)],
        capture_pipeline(device).elements.map_values(|e: ElementView| e.factory)
            == seq!["v4l2src"@, "videoconvert"@, "capsfilter"@, "x264enc"@, "shmsink"@],
        capture_pipeline(device).elements[2].properties == seq![caps_property("video/x-raw"@, 640, 480)],
        capture_pipeline(device).elements[3].properties
            == seq![text_property("speed-preset"@, "ultrafast"@), text_property("tune"@, "zerolatency"@)],
        capture_pipeline(device).elements[4].properties == seq![
            text_property("socket-path"@, "/tmp/rust-vid-streamer-shm"@),
            text_property("sync"@, "true"@),
            text_property("wait-for-connection"@, "false"@),
        ],
        source_bin(socket).elements.map_values(|e: ElementView| e.factory) == seq!["shmsrc"@, "h264parse"@, "rtph264pay"@],
        source_bin(socket).elements[2].name == Some("pay0"@),
{
    assert(streamer_pipeline(device, ip, port).elements.map_values(|e: ElementView| e.factory)
        =~= seq!["v4l2src"@, "videoconvert"@, "x264enc"@, "rtph264pay"@, "udpsink"@]);
    assert(receiver_pipeline(port).elements.map_values(|e: ElementView| e.factory)
        =~= seq!["udpsrc"@, "rtph264depay"@, "decodebin"@, "videoconvert"@, "autovideosink"@]);
    assert(recorder_pipeline(device).elements.map_values(|e: ElementView| e.factory)
        =~= seq!["v4l2src"@, "videoscale"@, "capsfilter"@, "videoconvert"@, "queue"@, "x264enc"@, "mp4mux"@, "filesink"@]);
    assert(capture_pipeline(device).elements.map_values(|e: ElementView| e.factory)
        =~= seq!["v4l2src"@, "videoconvert"@, "capsfilter"@, "x264enc"@, "shmsink"@]);
    assert(source_bin(socket).elements.map_values(|e: ElementView| e.factory) =~= seq!["shmsrc"@, "h264parse"@, "rtph264pay"@]);
}

/// A usage line starts with `Usage: `, then names the program as it was invoked.
pub proof fn lemma_usage_names_program(program: Seq<char>, synopsis: Seq<char>)
    ensures
        usage_text(program, synopsis).subrange(0, 7) == "Usage: "@,
        usage_text(program, synopsis).subrange(7, 7 + program.len() as int) == program,
{
    reveal_strlit("Usage: ");
    let u = usage_text(program, synopsis);
    assert(u.subrange(0, 7) =~= "Usage: "@);
    assert(u.subrange(7, 7 + program.len() as int) =~= program);
}

/// Different arguments give different pipelines: a pipeline made for one device, host or
/// port is never the one made for another.
pub proof fn lemma_pipelines_distinguish_arguments(
    d1: Seq<char>, ip1: Seq<char>, p1: Seq<char>,
    d2: Seq<char>, ip2: Seq<char>, p2: Seq<char>,
)
    ensures
        streamer_pipeline(d1, ip1, p1) == streamer_pipeline(d2, ip2, p2) ==> d1 == d2 && ip1 == ip2 && p1 == p2,
        receiver_pipeline(p1) == receiver_pipeline(p2) ==> p1 == p2,
        recorder_pipeline(d1) == recorder_pipeline(d2) ==> d1 == d2,
        capture_pipeline(d1) == capture_pipeline(d2) ==> d1 == d2,
{
    lemma_pipelines_use_their_arguments(d1, ip1, p1, d1);
    lemma_pipelines_use_their_arguments(d2, ip2, p2, d2);
    if streamer_pipeline(d1, ip1, p1) == streamer_pipeline(d2, ip2, p2) {
        let a = streamer_pipeline(d1, ip1, p1);
        let b = streamer_pipeline(d2, ip2, p2);
        assert(a.elements[0].properties[0] == b.elements[0].properties[0]);
        assert(a.elements.last().properties[0] == b.elements.last().properties[0]);
        assert(a.elements.last().properties[1] == b.elements.last().properties[1]);
    }
    if receiver_pipeline(p1) == receiver_pipeline(p2) {
        assert(receiver_pipeline(p1).elements[0].properties[0] == receiver_pipeline(p2).elements[0].properties[0]);
    }
    if recorder_pipeline(d1) == recorder_pipeline(d2) {
        assert(recorder_pipeline(d1).elements[0].properties[0] == recorder_pipeline(d2).elements[0].properties[0]);
    }
    if capture_pipeline(d1) == capture_pipeline(d2) {
        assert(capture_pipeline(d1).elements[0].properties[0] == capture_pipeline(d2).elements[0].properties[0]);
    }
}

/// Both servers listen on the port they are given, publish at `/stream` and share one
/// media among clients; the launch-line server captures the device it is given.
pub proof fn lemma_servers_use_their_arguments(device: Seq<char>, port: Seq<char>)
    ensures
        rtsp_server(device, port).service == port,
        rtsp_server(device, port).mount_path == "/stream"@,
        rtsp_server(device, port).shared,
        rtsp_server(device, port).source matches SourceView::Launch(l) && launch_names_device(l, device),
        shm_server(port).service == port,
        shm_server(port).mount_path == "/stream"@,
        shm_server(port).shared,
{
    lemma_launch_names_device(device);
}

/// The announced address carries the bound port in decimal: after `rtsp://127.0.0.1:` and
/// before `/stream` stands a numeral that reads back as the port (or, for a negative
/// port, `-` and the numeral of its magnitude).
pub proof fn lemma_announced_port_reads_back(bound_port: int)
    ensures
        stream_url_text(bound_port).len() == 17 + int_decimal(bound_port).len() as int + 7,
        stream_url_text(bound_port).subrange(0, 17) == "rtsp://127.0.0.1:"@,
        stream_url_text(bound_port).subrange(17 + int_decimal(bound_port).len() as int, stream_url_text(bound_port).len() as int)
            == "/stream"@,
        bound_port >= 0 ==> ({
            let digits = stream_url_text(bound_port).subrange(17, 17 + int_decimal(bound_port).len() as int);
            is_numeral(digits) && decimal_value(digits) == bound_port
        }),
{
    reveal_strlit("rtsp://127.0.0.1:");
    reveal_strlit("/stream");
    lemma_int_decimal_reads_back(bound_port);
    let u = stream_url_text(bound_port);
    let d = int_decimal(bound_port);
    assert(u.subrange(0, 17) =~= "rtsp://127.0.0.1:"@);
    assert(u.subrange(17, 17 + d.len() as int) =~= d);
    assert(u.subrange(17 + d.len() as int, u.len() as int) =~= "/stream"@);
}

} // verus!
