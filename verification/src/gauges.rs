//! The plain gauges of the exporter, grouped by the report class that sets them.

use vstd::prelude::*;
use crate::gpsd::{Tpv, Sky, Satellite, Gst, Toff, Pps, Osc};

verus! {

/// The value a gauge shows.
#[derive(Clone, Copy, Debug, PartialEq, Eq, Structural)]
pub enum Reading {
    /// A number copied from a report, as its binary64 bit pattern.
    Bits(u64),
    /// A whole number that the exporter derived: a count, or 1 and 0 for true and false.
    Whole(u64),
}

/// A gauge after a reading that may be absent: a present reading replaces the value.
pub open spec fn merged(old: Reading, v: Option<u64>) -> Reading {
    match v {
        Some(bits) => Reading::Bits(bits),
        None => old,
    }
}

/// The gauge value of a flag: 1 for true, 0 for false.
pub open spec fn flag_value(b: bool) -> Reading {
    if b {
        Reading::Whole(1)
    } else {
        Reading::Whole(0)
    }
}

/// A gauge after a flag that may be absent: a present flag replaces the value.
pub open spec fn flag_merged(old: Reading, v: Option<bool>) -> Reading {
    match v {
        Some(b) => flag_value(b),
        None => old,
    }
}

/// Sets `gauge` to `value` when there is one.
pub fn set_if_some(gauge: &mut Reading, value: Option<u64>)
    ensures
        *final(gauge) == merged(*old(gauge), value),
{
    if let Some(v) = value {
        *gauge = Reading::Bits(v);
    }
}

/// Sets `gauge` to 1 or 0 when the flag is present.
pub fn set_flag_if_some(gauge: &mut Reading, value: Option<bool>)
    ensures
        *final(gauge) == flag_merged(*old(gauge), value),
{
    if let Some(b) = value {
        *gauge = if b { Reading::Whole(1) } else { Reading::Whole(0) };
    }
}

/// How many satellites of a sky view are used in the navigation solution.
pub open spec fn count_used(sats: Seq<Satellite>) -> nat
    decreases sats.len(),
{
    if sats.len() == 0 {
        0
    } else {
        count_used(sats.drop_last()) + if sats.last().used == Some(true) { 1nat } else { 0nat }
    }
}

/// The satellites seen and used: the length of the list and the number of used ones.
pub fn count_satellites(sats: &Vec<Satellite>) -> (counts: (u64, u64))
    ensures
        counts.0 == sats.len(),
        counts.1 == count_used(sats@),
{
    let mut used: u64 = 0;
    let mut i: usize = 0;
    while i < sats.len()
        invariant
            i <= sats.len(),
            used == count_used(sats@.take(i as int)),
            used <= i,
        decreases sats.len() - i,
    {
        assert(sats@.take(i as int) =~= sats@.take((i + 1) as int).drop_last());
        if sats[i].used == Some(true) {
            used = used + 1;
        }
        i = i + 1;
    }
    assert(sats@.take(i as int) =~= sats@);
    (i as u64, used)
}

/// No more satellites are used than there are in the list.
pub proof fn lemma_used_at_most_seen(sats: Seq<Satellite>)
    ensures
        count_used(sats) <= sats.len(),
    decreases sats.len(),
{
    if sats.len() > 0 {
        lemma_used_at_most_seen(sats.drop_last());
    }
}

/// The gauges that sky view reports set.
#[derive(Clone, Copy, Debug)]
pub struct SkyGauges {
    pub gdop: Reading,
    pub hdop: Reading,
    pub pdop: Reading,
    pub tdop: Reading,
    pub vdop: Reading,
    pub xdop: Reading,
    pub ydop: Reading,
    pub n_sat: Reading,
    pub u_sat: Reading,
    pub pr_res: Reading,
    pub qual: Reading,
    pub sat_used: Reading,
    pub sat_seen: Reading,
}

impl SkyGauges {
    /// Every gauge at its initial value, 0.
    pub open spec fn zeroed() -> Self {
        SkyGauges {
            gdop: Reading::Whole(0),
            hdop: Reading::Whole(0),
            pdop: Reading::Whole(0),
            tdop: Reading::Whole(0),
            vdop: Reading::Whole(0),
            xdop: Reading::Whole(0),
            ydop: Reading::Whole(0),
            n_sat: Reading::Whole(0),
            u_sat: Reading::Whole(0),
            pr_res: Reading::Whole(0),
            qual: Reading::Whole(0),
            sat_used: Reading::Whole(0),
            sat_seen: Reading::Whole(0),
        }
    }

    /// The gauges after a sky view: present readings replace values, and a
    /// view with a satellite list sets the seen and used counts from it.
    pub open spec fn after(self, r: Sky) -> Self {
        SkyGauges {
            gdop: merged(self.gdop, r.gdop),
            hdop: merged(self.hdop, r.hdop),
            pdop: merged(self.pdop, r.pdop),
            tdop: merged(self.tdop, r.tdop),
            vdop: merged(self.vdop, r.vdop),
            xdop: merged(self.xdop, r.xdop),
            ydop: merged(self.ydop, r.ydop),
            n_sat: merged(self.n_sat, r.nSat),
            u_sat: merged(self.u_sat, r.uSat),
            pr_res: merged(self.pr_res, r.prRes),
            qual: merged(self.qual, r.qual),
            sat_used: match r.satellites {
                Some(sats) => Reading::Whole(count_used(sats@) as u64),
                None => self.sat_used,
            },
            sat_seen: match r.satellites {
                Some(sats) => Reading::Whole(sats@.len() as u64),
                None => self.sat_seen,
            },
        }
    }

    /// Every gauge at its initial value, 0.
    pub fn zero() -> (g: Self)
        ensures
            g == Self::zeroed(),
    {
        SkyGauges {
            gdop: Reading::Whole(0),
            hdop: Reading::Whole(0),
            pdop: Reading::Whole(0),
            tdop: Reading::Whole(0),
            vdop: Reading::Whole(0),
            xdop: Reading::Whole(0),
            ydop: Reading::Whole(0),
            n_sat: Reading::Whole(0),
            u_sat: Reading::Whole(0),
            pr_res: Reading::Whole(0),
            qual: Reading::Whole(0),
            sat_used: Reading::Whole(0),
            sat_seen: Reading::Whole(0),
        }
    }

    /// Sets the gauges from a sky view.
    pub fn update(&mut self, r: &Sky)
        ensures
            *final(self) == old(self).after(*r),
    {
        set_if_some(&mut self.gdop, r.gdop);
        set_if_some(&mut self.hdop, r.hdop);
        set_if_some(&mut self.pdop, r.pdop);
        set_if_some(&mut self.tdop, r.tdop);
        set_if_some(&mut self.vdop, r.vdop);
        set_if_some(&mut self.xdop, r.xdop);
        set_if_some(&mut self.ydop, r.ydop);
        set_if_some(&mut self.n_sat, r.nSat);
        set_if_some(&mut self.u_sat, r.uSat);
        set_if_some(&mut self.pr_res, r.prRes);
        set_if_some(&mut self.qual, r.qual);
        if let Some(sats) = &r.satellites {
            let (seen, used) = count_satellites(sats);
            self.sat_seen = Reading::Whole(seen);
            self.sat_used = Reading::Whole(used);
        }
    }
}

/// The gauges that time-position-velocity reports set.
#[derive(Clone, Copy, Debug)]
pub struct TpvGauges {
    pub lat: Reading,
    pub lon: Reading,
    pub alt_hae: Reading,
    pub alt_msl: Reading,
    pub mode: Reading,
    pub status: Reading,
    pub leapseconds: Reading,
    pub magvar: Reading,
    pub ept: Reading,
    pub epx: Reading,
    pub epy: Reading,
    pub epv: Reading,
    pub eps: Reading,
    pub epc: Reading,
    pub epd: Reading,
    pub eph: Reading,
    pub sep: Reading,
    pub geoid_sep: Reading,
    pub ecefx: Reading,
    pub ecefy: Reading,
    pub ecefz: Reading,
    pub ecefvx: Reading,
    pub ecefvy: Reading,
    pub ecefvz: Reading,
    pub ecefp_acc: Reading,
    pub ecefv_acc: Reading,
    pub vel_n: Reading,
    pub vel_e: Reading,
    pub vel_d: Reading,
    pub speed: Reading,
    pub track: Reading,
    pub magtrack: Reading,
    pub climb: Reading,
    pub depth: Reading,
    pub dgps_age: Reading,
    pub dgps_sta: Reading,
    pub rel_n: Reading,
    pub rel_e: Reading,
    pub rel_d: Reading,
}

impl TpvGauges {
    /// Every gauge at its initial value, 0.
    pub open spec fn zeroed() -> Self {
        TpvGauges {
            lat: Reading::Whole(0),
            lon: Reading::Whole(0),
            alt_hae: Reading::Whole(0),
            alt_msl: Reading::Whole(0),
            mode: Reading::Whole(0),
            status: Reading::Whole(0),
            leapseconds: Reading::Whole(0),
            magvar: Reading::Whole(0),
            ept: Reading::Whole(0),
            epx: Reading::Whole(0),
            epy: Reading::Whole(0),
            epv: Reading::Whole(0),
            eps: Reading::Whole(0),
            epc: Reading::Whole(0),
            epd: Reading::Whole(0),
            eph: Reading::Whole(0),
            sep: Reading::Whole(0),
            geoid_sep: Reading::Whole(0),
            ecefx: Reading::Whole(0),
            ecefy: Reading::Whole(0),
            ecefz: Reading::Whole(0),
            ecefvx: Reading::Whole(0),
            ecefvy: Reading::Whole(0),
            ecefvz: Reading::Whole(0),
            ecefp_acc: Reading::Whole(0),
            ecefv_acc: Reading::Whole(0),
            vel_n: Reading::Whole(0),
            vel_e: Reading::Whole(0),
            vel_d: Reading::Whole(0),
            speed: Reading::Whole(0),
            track: Reading::Whole(0),
            magtrack: Reading::Whole(0),
            climb: Reading::Whole(0),
            depth: Reading::Whole(0),
            dgps_age: Reading::Whole(0),
            dgps_sta: Reading::Whole(0),
            rel_n: Reading::Whole(0),
            rel_e: Reading::Whole(0),
            rel_d: Reading::Whole(0),
        }
    }

    /// The gauges after a report: each reading the report holds replaces
    /// the value of its gauge, and each gauge whose reading is absent keeps its value.
    pub open spec fn after(self, r: Tpv) -> Self {
        TpvGauges {
            lat: merged(self.lat, r.lat),
            lon: merged(self.lon, r.lon),
            alt_hae: merged(self.alt_hae, r.altHAE),
            alt_msl: merged(self.alt_msl, r.altMSL),
            mode: merged(self.mode, r.mode),
            status: merged(self.status, r.status),
            leapseconds: merged(self.leapseconds, r.leapseconds),
            magvar: merged(self.magvar, r.magvar),
            ept: merged(self.ept, r.ept),
            epx: merged(self.epx, r.epx),
            epy: merged(self.epy, r.epy),
            epv: merged(self.epv, r.epv),
            eps: merged(self.eps, r.eps),
            epc: merged(self.epc, r.epc),
            epd: merged(self.epd, r.epd),
            eph: merged(self.eph, r.eph),
            sep: merged(self.sep, r.sep),
            geoid_sep: merged(self.geoid_sep, r.geoidSep),
            ecefx: merged(self.ecefx, r.ecefx),
            ecefy: merged(self.ecefy, r.ecefy),
            ecefz: merged(self.ecefz, r.ecefz),
            ecefvx: merged(self.ecefvx, r.ecefvx),
            ecefvy: merged(self.ecefvy, r.ecefvy),
            ecefvz: merged(self.ecefvz, r.ecefvz),
            ecefp_acc: merged(self.ecefp_acc, r.ecefpAcc),
            ecefv_acc: merged(self.ecefv_acc, r.ecefvAcc),
            vel_n: merged(self.vel_n, r.velN),
            vel_e: merged(self.vel_e, r.velE),
            vel_d: merged(self.vel_d, r.velD),
            speed: merged(self.speed, r.speed),
            track: merged(self.track, r.track),
            magtrack: merged(self.magtrack, r.magtrack),
            climb: merged(self.climb, r.climb),
            depth: merged(self.depth, r.depth),
            dgps_age: merged(self.dgps_age, r.dgpsAge),
            dgps_sta: merged(self.dgps_sta, r.dgpsSta),
            rel_n: merged(self.rel_n, r.relN),
            rel_e: merged(self.rel_e, r.relE),
            rel_d: merged(self.rel_d, r.relD),
        }
    }

    /// Every gauge at its initial value, 0.
    pub fn zero() -> (g: Self)
        ensures
            g == Self::zeroed(),
    {
        TpvGauges {
            lat: Reading::Whole(0),
            lon: Reading::Whole(0),
            alt_hae: Reading::Whole(0),
            alt_msl: Reading::Whole(0),
            mode: Reading::Whole(0),
            status: Reading::Whole(0),
            leapseconds: Reading::Whole(0),
            magvar: Reading::Whole(0),
            ept: Reading::Whole(0),
            epx: Reading::Whole(0),
            epy: Reading::Whole(0),
            epv: Reading::Whole(0),
            eps: Reading::Whole(0),
            epc: Reading::Whole(0),
            epd: Reading::Whole(0),
            eph: Reading::Whole(0),
            sep: Reading::Whole(0),
            geoid_sep: Reading::Whole(0),
            ecefx: Reading::Whole(0),
            ecefy: Reading::Whole(0),
            ecefz: Reading::Whole(0),
            ecefvx: Reading::Whole(0),
            ecefvy: Reading::Whole(0),
            ecefvz: Reading::Whole(0),
            ecefp_acc: Reading::Whole(0),
            ecefv_acc: Reading::Whole(0),
            vel_n: Reading::Whole(0),
            vel_e: Reading::Whole(0),
            vel_d: Reading::Whole(0),
            speed: Reading::Whole(0),
            track: Reading::Whole(0),
            magtrack: Reading::Whole(0),
            climb: Reading::Whole(0),
            depth: Reading::Whole(0),
            dgps_age: Reading::Whole(0),
            dgps_sta: Reading::Whole(0),
            rel_n: Reading::Whole(0),
            rel_e: Reading::Whole(0),
            rel_d: Reading::Whole(0),
        }
    }

    /// Sets the gauges from a report.
    pub fn update(&mut self, r: &Tpv)
        ensures
            *final(self) == old(self).after(*r),
    {
        set_if_some(&mut self.lat, r.lat);
        set_if_some(&mut self.lon, r.lon);
        set_if_some(&mut self.alt_hae, r.altHAE);
        set_if_some(&mut self.alt_msl, r.altMSL);
        set_if_some(&mut self.mode, r.mode);
        set_if_some(&mut self.status, r.status);
        set_if_some(&mut self.leapseconds, r.leapseconds);
        set_if_some(&mut self.magvar, r.magvar);
        set_if_some(&mut self.ept, r.ept);
        set_if_some(&mut self.epx, r.epx);
        set_if_some(&mut self.epy, r.epy);
        set_if_some(&mut self.epv, r.epv);
        set_if_some(&mut self.eps, r.eps);
        set_if_some(&mut self.epc, r.epc);
        set_if_some(&mut self.epd, r.epd);
        set_if_some(&mut self.eph, r.eph);
        set_if_some(&mut self.sep, r.sep);
        set_if_some(&mut self.geoid_sep, r.geoidSep);
        set_if_some(&mut self.ecefx, r.ecefx);
        set_if_some(&mut self.ecefy, r.ecefy);
        set_if_some(&mut self.ecefz, r.ecefz);
        set_if_some(&mut self.ecefvx, r.ecefvx);
        set_if_some(&mut self.ecefvy, r.ecefvy);
        set_if_some(&mut self.ecefvz, r.ecefvz);
        set_if_some(&mut self.ecefp_acc, r.ecefpAcc);
        set_if_some(&mut self.ecefv_acc, r.ecefvAcc);
        set_if_some(&mut self.vel_n, r.velN);
        set_if_some(&mut self.vel_e, r.velE);
        set_if_some(&mut self.vel_d, r.velD);
        set_if_some(&mut self.speed, r.speed);
        set_if_some(&mut self.track, r.track);
        set_if_some(&mut self.magtrack, r.magtrack);
        set_if_some(&mut self.climb, r.climb);
        set_if_some(&mut self.depth, r.depth);
        set_if_some(&mut self.dgps_age, r.dgpsAge);
        set_if_some(&mut self.dgps_sta, r.dgpsSta);
        set_if_some(&mut self.rel_n, r.relN);
        set_if_some(&mut self.rel_e, r.relE);
        set_if_some(&mut self.rel_d, r.relD);
    }
}

/// The gauges that pseudorange noise reports set.
#[derive(Clone, Copy, Debug)]
pub struct GstGauges {
    pub rms: Reading,
    pub major: Reading,
    pub minor: Reading,
    pub orient: Reading,
    pub lat: Reading,
    pub lon: Reading,
    pub alt: Reading,
}

impl GstGauges {
    /// Every gauge at its initial value, 0.
    pub open spec fn zeroed() -> Self {
        GstGauges {
            rms: Reading::Whole(0),
            major: Reading::Whole(0),
            minor: Reading::Whole(0),
            orient: Reading::Whole(0),
            lat: Reading::Whole(0),
            lon: Reading::Whole(0),
            alt: Reading::Whole(0),
        }
    }

    /// The gauges after a report: each reading the report holds replaces
    /// the value of its gauge, and each gauge whose reading is absent keeps its value.
    pub open spec fn after(self, r: Gst) -> Self {
        GstGauges {
            rms: merged(self.rms, r.rms),
            major: merged(self.major, r.major),
            minor: merged(self.minor, r.minor),
            orient: merged(self.orient, r.orient),
            lat: merged(self.lat, r.lat),
            lon: merged(self.lon, r.lon),
            alt: merged(self.alt, r.alt),
        }
    }

    /// Every gauge at its initial value, 0.
    pub fn zero() -> (g: Self)
        ensures
            g == Self::zeroed(),
    {
        GstGauges {
            rms: Reading::Whole(0),
            major: Reading::Whole(0),
            minor: Reading::Whole(0),
            orient: Reading::Whole(0),
            lat: Reading::Whole(0),
            lon: Reading::Whole(0),
            alt: Reading::Whole(0),
        }
    }

    /// Sets the gauges from a report.
    pub fn update(&mut self, r: &Gst)
        ensures
            *final(self) == old(self).after(*r),
    {
        set_if_some(&mut self.rms, r.rms);
        set_if_some(&mut self.major, r.major);
        set_if_some(&mut self.minor, r.minor);
        set_if_some(&mut self.orient, r.orient);
        set_if_some(&mut self.lat, r.lat);
        set_if_some(&mut self.lon, r.lon);
        set_if_some(&mut self.alt, r.alt);
    }
}

/// The gauges that time offset reports set.
#[derive(Clone, Copy, Debug)]
pub struct ToffGauges {
    pub real_sec: Reading,
    pub real_nsec: Reading,
    pub clock_sec: Reading,
    pub clock_nsec: Reading,
}

impl ToffGauges {
    /// Every gauge at its initial value, 0.
    pub open spec fn zeroed() -> Self {
        ToffGauges {
            real_sec: Reading::Whole(0),
            real_nsec: Reading::Whole(0),
            clock_sec: Reading::Whole(0),
            clock_nsec: Reading::Whole(0),
        }
    }

    /// The gauges after a report: each reading the report holds replaces
    /// the value of its gauge, and each gauge whose reading is absent keeps its value.
    pub open spec fn after(self, r: Toff) -> Self {
        ToffGauges {
            real_sec: merged(self.real_sec, r.real_sec),
            real_nsec: merged(self.real_nsec, r.real_nsec),
            clock_sec: merged(self.clock_sec, r.clock_sec),
            clock_nsec: merged(self.clock_nsec, r.clock_nsec),
        }
    }

    /// Every gauge at its initial value, 0.
    pub fn zero() -> (g: Self)
        ensures
            g == Self::zeroed(),
    {
        ToffGauges {
            real_sec: Reading::Whole(0),
            real_nsec: Reading::Whole(0),
            clock_sec: Reading::Whole(0),
            clock_nsec: Reading::Whole(0),
        }
    }

    /// Sets the gauges from a report.
    pub fn update(&mut self, r: &Toff)
        ensures
            *final(self) == old(self).after(*r),
    {
        set_if_some(&mut self.real_sec, r.real_sec);
        set_if_some(&mut self.real_nsec, r.real_nsec);
        set_if_some(&mut self.clock_sec, r.clock_sec);
        set_if_some(&mut self.clock_nsec, r.clock_nsec);
    }
}

/// The gauges that pulse-per-second reports set.
#[derive(Clone, Copy, Debug)]
pub struct PpsGauges {
    pub real_sec: Reading,
    pub real_nsec: Reading,
    pub clock_sec: Reading,
    pub clock_nsec: Reading,
    pub precision: Reading,
    pub q_err: Reading,
}

impl PpsGauges {
    /// Every gauge at its initial value, 0.
    pub open spec fn zeroed() -> Self {
        PpsGauges {
            real_sec: Reading::Whole(0),
            real_nsec: Reading::Whole(0),
            clock_sec: Reading::Whole(0),
            clock_nsec: Reading::Whole(0),
            precision: Reading::Whole(0),
            q_err: Reading::Whole(0),
        }
    }

    /// The gauges after a report: each reading the report holds replaces
    /// the value of its gauge, and each gauge whose reading is absent keeps its value.
    pub open spec fn after(self, r: Pps) -> Self {
        PpsGauges {
            real_sec: merged(self.real_sec, r.real_sec),
            real_nsec: merged(self.real_nsec, r.real_nsec),
            clock_sec: merged(self.clock_sec, r.clock_sec),
            clock_nsec: merged(self.clock_nsec, r.clock_nsec),
            precision: merged(self.precision, r.precision),
            q_err: merged(self.q_err, r.q_err),
        }
    }

    /// Every gauge at its initial value, 0.
    pub fn zero() -> (g: Self)
        ensures
            g == Self::zeroed(),
    {
        PpsGauges {
            real_sec: Reading::Whole(0),
            real_nsec: Reading::Whole(0),
            clock_sec: Reading::Whole(0),
            clock_nsec: Reading::Whole(0),
            precision: Reading::Whole(0),
            q_err: Reading::Whole(0),
        }
    }

    /// Sets the gauges from a report.
    pub fn update(&mut self, r: &Pps)
        ensures
            *final(self) == old(self).after(*r),
    {
        set_if_some(&mut self.real_sec, r.real_sec);
        set_if_some(&mut self.real_nsec, r.real_nsec);
        set_if_some(&mut self.clock_sec, r.clock_sec);
        set_if_some(&mut self.clock_nsec, r.clock_nsec);
        set_if_some(&mut self.precision, r.precision);
        set_if_some(&mut self.q_err, r.q_err);
    }
}

/// The gauges that oscillator reports set.
#[derive(Clone, Copy, Debug)]
pub struct OscGauges {
    pub running: Reading,
    pub reference: Reading,
    pub disciplined: Reading,
    pub delta: Reading,
}

impl OscGauges {
    /// Every gauge at its initial value, 0.
    pub open spec fn zeroed() -> Self {
        OscGauges {
            running: Reading::Whole(0),
            reference: Reading::Whole(0),
            disciplined: Reading::Whole(0),
            delta: Reading::Whole(0),
        }
    }

    /// The gauges after a report: each reading the report holds replaces
    /// the value of its gauge, and each gauge whose reading is absent keeps its value.
    pub open spec fn after(self, r: Osc) -> Self {
        OscGauges {
            running: flag_merged(self.running, r.running),
            reference: flag_merged(self.reference, r.reference),
            disciplined: flag_merged(self.disciplined, r.disciplined),
            delta: merged(self.delta, r.delta),
        }
    }

    /// Every gauge at its initial value, 0.
    pub fn zero() -> (g: Self)
        ensures
            g == Self::zeroed(),
    {
        OscGauges {
            running: Reading::Whole(0),
            reference: Reading::Whole(0),
            disciplined: Reading::Whole(0),
            delta: Reading::Whole(0),
        }
    }

    /// Sets the gauges from a report.
    pub fn update(&mut self, r: &Osc)
        ensures
            *final(self) == old(self).after(*r),
    {
        set_flag_if_some(&mut self.running, r.running);
        set_flag_if_some(&mut self.reference, r.reference);
        set_flag_if_some(&mut self.disciplined, r.disciplined);
        set_if_some(&mut self.delta, r.delta);
    }
}

} // verus!
