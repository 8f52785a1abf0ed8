//! A verified core for streaming 16-bit interleaved stereo PCM to an audio
//! output device.
//!
//! The library presents one uniform, blocking [`sink::Sink`] contract over
//! three backends with different execution models: a synchronous pull-style
//! device stream, a blocking kernel device handle, and an asynchronous
//! push-style pipeline with a bounded channel and a fixed buffer pool.
//! The playback driver in [`player`] pulls decoded packets and feeds them to
//! the active sink, absorbing device underflow and stopping on fatal errors.
//!
//! Device and decoder I/O live outside this crate; the library works on the
//! plain values they produce (sample buffers, write outcomes, decode events)
//! and states exactly how each backend and the driver react to them.

pub mod alsa_sink;
pub mod backend;
pub mod gstreamer_sink;
pub mod player;
pub mod portaudio_sink;
pub mod sink;
