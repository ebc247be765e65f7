//! The reports that gpsd streams as JSON objects, one per line, selected by
//! their `class` member.
//!
//! A numeric reading is carried exactly as the IEEE-754 binary64 bit pattern
//! of the number in the report, so that no value is altered on its way from
//! the report to the metric that exports it.  The satellite identifiers,
//! which only ever become label text, are carried as the integers that the
//! exporter prints (the reading truncated toward zero).  The members of a
//! device that gpsd may send as arbitrary JSON are carried as their JSON text.

use vstd::prelude::*;

verus! {

/// One report of the gpsd JSON protocol.
#[allow(non_camel_case_types)]
pub enum GpsdMessage {
    VERSION(Version),
    DEVICES(Devices),
    WATCH(Watch),
    TPV(Box<Tpv>),
    SKY(Box<Sky>),
    PPS(Pps),
    GST(Gst),
    TOFF(Toff),
    OSC(Osc),
}

/// The daemon's release and protocol version.
pub struct Version {
    pub release: Option<String>,
    pub rev: Option<String>,
    pub proto_major: Option<u32>,
    pub proto_minor: Option<u32>,
}

/// The devices that gpsd currently watches.
pub struct Devices {
    pub devices: Vec<Device>,
}

/// One device of a DEVICES report.
pub struct Device {
    pub path: Option<String>,
    pub driver: Option<String>,
    pub subtype: Option<String>,
    pub subtype1: Option<String>,
    pub activated: Option<String>,
    /// JSON text of the member.
    pub flags: Option<String>,
    /// JSON text of the member.
    pub native: Option<String>,
    /// JSON text of the member.
    pub bps: Option<String>,
    pub parity: Option<String>,
    /// JSON text of the member.
    pub stopbits: Option<String>,
    /// JSON text of the member.
    pub cycle: Option<String>,
    /// JSON text of the member.
    pub mincycle: Option<String>,
}

/// The acknowledgement of a watch request; it carries nothing the exporter reads.
pub struct Watch {}

/// Time-position-velocity report; each reading is a binary64 bit pattern.
#[allow(non_snake_case)]
pub struct Tpv {
    pub device: Option<String>,
    pub mode: Option<u64>,
    pub status: Option<u64>,
    pub lat: Option<u64>,
    pub lon: Option<u64>,
    pub altHAE: Option<u64>,
    pub altMSL: Option<u64>,
    pub climb: Option<u64>,
    pub speed: Option<u64>,
    pub track: Option<u64>,
    pub magtrack: Option<u64>,
    pub magvar: Option<u64>,
    pub leapseconds: Option<u64>,
    pub ept: Option<u64>,
    pub epx: Option<u64>,
    pub epy: Option<u64>,
    pub epv: Option<u64>,
    pub eps: Option<u64>,
    pub epc: Option<u64>,
    pub epd: Option<u64>,
    pub eph: Option<u64>,
    pub sep: Option<u64>,
    pub geoidSep: Option<u64>,
    pub ecefx: Option<u64>,
    pub ecefy: Option<u64>,
    pub ecefz: Option<u64>,
    pub ecefvx: Option<u64>,
    pub ecefvy: Option<u64>,
    pub ecefvz: Option<u64>,
    pub ecefpAcc: Option<u64>,
    pub ecefvAcc: Option<u64>,
    pub velN: Option<u64>,
    pub velE: Option<u64>,
    pub velD: Option<u64>,
    pub relN: Option<u64>,
    pub relE: Option<u64>,
    pub relD: Option<u64>,
    pub depth: Option<u64>,
    pub dgpsAge: Option<u64>,
    pub dgpsSta: Option<u64>,
}

/// Sky view report; each reading is a binary64 bit pattern.
#[allow(non_snake_case)]
pub struct Sky {
    pub device: Option<String>,
    pub gdop: Option<u64>,
    pub hdop: Option<u64>,
    pub pdop: Option<u64>,
    pub tdop: Option<u64>,
    pub vdop: Option<u64>,
    pub xdop: Option<u64>,
    pub ydop: Option<u64>,
    pub nSat: Option<u64>,
    pub uSat: Option<u64>,
    pub prRes: Option<u64>,
    pub qual: Option<u64>,
    pub satellites: Option<Vec<Satellite>>,
}

/// One satellite of a sky view.  `PRN`, `gnssid` and `svid` are the
/// identifiers truncated toward zero; the other readings are bit patterns.
#[allow(non_snake_case)]
pub struct Satellite {
    pub PRN: Option<i64>,
    pub az: Option<u64>,
    pub el: Option<u64>,
    pub ss: Option<u64>,
    pub used: Option<bool>,
    pub gnssid: Option<i64>,
    pub svid: Option<i64>,
    pub sigid: Option<u64>,
    pub freqid: Option<u64>,
    pub health: Option<u64>,
}

/// Pulse-per-second report; each reading is a binary64 bit pattern.
pub struct Pps {
    pub device: Option<String>,
    pub real_sec: Option<u64>,
    pub real_nsec: Option<u64>,
    pub clock_sec: Option<u64>,
    pub clock_nsec: Option<u64>,
    pub precision: Option<u64>,
    pub shm: Option<String>,
    pub q_err: Option<u64>,
}

/// Pseudorange noise report; each reading is a binary64 bit pattern.
pub struct Gst {
    pub device: Option<String>,
    pub rms: Option<u64>,
    pub major: Option<u64>,
    pub minor: Option<u64>,
    pub orient: Option<u64>,
    pub lat: Option<u64>,
    pub lon: Option<u64>,
    pub alt: Option<u64>,
}

/// Time offset report; each reading is a binary64 bit pattern.
pub struct Toff {
    pub device: Option<String>,
    pub real_sec: Option<u64>,
    pub real_nsec: Option<u64>,
    pub clock_sec: Option<u64>,
    pub clock_nsec: Option<u64>,
}

/// Oscillator report; `delta` is a binary64 bit pattern.
pub struct Osc {
    pub device: Option<String>,
    pub running: Option<bool>,
    pub reference: Option<bool>,
    pub disciplined: Option<bool>,
    pub delta: Option<u64>,
}

} // verus!

verus! {

/// The request that starts the JSON report stream, newline included.
pub fn watch_request() -> (s: &'static str)
    ensures
        s@ == "?WATCH={\"enable\":true,\"json\":true}\n"@,
{
    "?WATCH={\"enable\":true,\"json\":true}\n"
}

} // verus!
