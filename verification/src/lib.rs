//! Pipeline descriptions, command-line handling and stream-session control for a
//! small family of camera streaming programs built on GStreamer: a UDP/RTP streamer
//! and receiver, a recorder, and two RTSP servers.

pub mod cli;
pub mod laws;
pub mod pipeline;
pub mod receiver;
pub mod recorder;
pub mod rtsp;
pub mod rtsp_server;
pub mod rtsp_server_shm;
pub mod session;
pub mod streamer;
pub mod text;
