//! Global definitions of the daemon protocol layer: device, sink, source and
//! port states, buffer metrics, and the predicates over them.

use vstd::prelude::*;
use crate::timeval::Timeval;

verus! {

/// An invalid index.
pub const PA_INVALID_INDEX: u32 = 0xffff_ffff;

/// The two kinds of devices.
#[allow(non_camel_case_types)]
#[derive(Clone, Copy, PartialEq, Eq, Structural, Debug)]
pub enum pa_device_type_t {
    Sink,
    Source,
}

/// Playback and record buffer metrics.
#[allow(non_camel_case_types)]
#[derive(Clone, Copy, PartialEq, Eq, Structural, Debug)]
pub struct pa_buffer_attr {
    pub maxlength: u32,
    pub tlength: u32,
    pub prebuf: u32,
    pub minreq: u32,
    pub fragsize: u32,
}

/// A stream's timing snapshot: the wallclock timestamp of its collection and
/// the latency and index figures measured then.
#[allow(non_camel_case_types)]
#[derive(Clone, Copy, PartialEq, Eq, Structural, Debug)]
pub struct pa_timing_info {
    pub timestamp: Timeval,
    pub synchronized_clocks: i32,
    pub sink_usec: u64,
    pub source_usec: u64,
    pub transport_usec: u64,
    pub playing: i32,
    pub write_index_corrupt: i32,
    pub write_index: i64,
    pub read_index_corrupt: i32,
    pub read_index: i64,
    pub configured_sink_usec: u64,
    pub configured_source_usec: u64,
    pub since_underrun: i64,
}

pub const PA_SINK_NOFLAGS: u32 = 0x0;

pub const PA_SINK_HW_VOLUME_CTRL: u32 = 0x1;

pub const PA_SINK_LATENCY: u32 = 0x2;

pub const PA_SINK_HARDWARE: u32 = 0x4;

pub const PA_SINK_NETWORK: u32 = 0x8;

pub const PA_SINK_HW_MUTE_CTRL: u32 = 0x10;

pub const PA_SINK_DECIBEL_VOLUME: u32 = 0x20;

pub const PA_SINK_FLAT_VOLUME: u32 = 0x40;

pub const PA_SINK_DYNAMIC_LATENCY: u32 = 0x80;

pub const PA_SINK_SET_FORMATS: u32 = 0x100;

/// The states a sink can be in.
#[allow(non_camel_case_types)]
#[derive(Clone, Copy, PartialEq, Eq, Structural, Debug)]
pub enum pa_sink_state_t {
    Invalid,
    Running,
    Idle,
    Suspended,
}

/// Returns `true` if the sink is playing: running or idle.
pub fn pa_sink_is_opened(state: pa_sink_state_t) -> (r: bool)
    ensures
        r == (state == pa_sink_state_t::Running || state == pa_sink_state_t::Idle),
{
    state == pa_sink_state_t::Running || state == pa_sink_state_t::Idle
}

/// Returns `true` if the sink is running.
pub fn pa_sink_is_running(state: pa_sink_state_t) -> (r: bool)
    ensures
        r == (state == pa_sink_state_t::Running),
{
    state == pa_sink_state_t::Running
}

pub const PA_SOURCE_NOFLAGS: u32 = 0x0;

pub const PA_SOURCE_HW_VOLUME_CTRL: u32 = 0x1;

pub const PA_SOURCE_LATENCY: u32 = 0x2;

pub const PA_SOURCE_HARDWARE: u32 = 0x4;

pub const PA_SOURCE_NETWORK: u32 = 0x8;

pub const PA_SOURCE_HW_MUTE_CTRL: u32 = 0x10;

pub const PA_SOURCE_DECIBEL_VOLUME: u32 = 0x20;

pub const PA_SOURCE_DYNAMIC_LATENCY: u32 = 0x42;

pub const PA_SOURCE_FLAT_VOLUME: u32 = 0x80;

/// The states a source can be in.
#[allow(non_camel_case_types)]
#[derive(Clone, Copy, PartialEq, Eq, Structural, Debug)]
pub enum pa_source_state_t {
    Invalid,
    Running,
    Idle,
    Suspended,
}

/// Returns `true` if the source is recording: running or idle.
pub fn pa_source_is_opened(state: pa_source_state_t) -> (r: bool)
    ensures
        r == (state == pa_source_state_t::Running || state == pa_source_state_t::Idle),
{
    state == pa_source_state_t::Running || state == pa_source_state_t::Idle
}

/// Returns `true` if the source is running.
pub fn pa_source_is_running(state: pa_source_state_t) -> (r: bool)
    ensures
        r == (state == pa_source_state_t::Running),
{
    state == pa_source_state_t::Running
}

/// Whether a port's jack is plugged in, when the port supports detection.
#[allow(non_camel_case_types)]
#[derive(Clone, Copy, PartialEq, Eq, Structural, Debug)]
pub enum pa_port_available_t {
    /// This port does not support jack detection.
    Unknown,
    /// This port is not available, likely because the jack is not plugged in.
    No,
    /// This port is available, likely because the jack is plugged in.
    Yes,
}

} // verus!
