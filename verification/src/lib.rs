//! The decisions of a Matrix client about rooms.
//!
//! A client asks a room to do things: to upload media and send it later, to send, redact and report
//! events, to keep drafts, to change who may do and see what. Each request is judged here, and what
//! has to be done about it is said in plain values; whoever talks to the server and to the file
//! system carries it out. Where doing and deciding alternate, a step names the next thing to do and
//! takes its outcome.
//!
//! What a request turns into, and every reason for which it is refused, is stated in the contracts.

pub mod about;
pub mod access;
pub mod avatar;
pub mod drafts;
pub mod errors;
pub mod ids;
pub mod local_files;
pub mod media;
pub mod members;
pub mod messages;
pub mod mimetypes;
pub mod numbers;
pub mod raw_events;
pub mod room;
pub mod send_queue;
pub mod sending;
pub mod text;
pub mod thumbnails;
pub mod timeline;
pub mod trust;
pub mod upload;
pub mod uploaded;
pub mod waveform;
