//! Streaming pipeline that isolates the audio of a transport stream and
//! hands it on, window by window, for decoding and speech recognition.

pub mod packet;
pub mod demux;
pub mod demux_laws;
pub mod transport;
pub mod window;
pub mod decode;
pub mod transcript;
pub mod inference;
pub mod pipeline;
