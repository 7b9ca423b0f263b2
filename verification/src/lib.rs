//! Verified core of an audio latency tester: recording buffers, test-signal
//! generation, measurement state machines and result classification.
pub mod ring_buffer;
pub mod pulse;
pub mod tap_to_tone;
pub mod round_trip;
pub mod playback;
pub mod navigation;
pub mod tone;
pub mod levels;
