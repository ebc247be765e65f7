//! The metric store of the exporter and what each gpsd report does to it.
//!
//! `Metrics` holds the value of every exported gauge and labelled series.
//! Processing a report updates the store as the report class dictates and
//! says whether a histogram observation is due; histogram values themselves
//! are computed from the readings that the observation carries.

use vstd::prelude::*;
use crate::gpsd::{GpsdMessage, Tpv, Sky, Satellite, Pps, Version, Devices, Device};
use crate::gauges::{Reading, TpvGauges, SkyGauges, GstGauges, ToffGauges, PpsGauges, OscGauges};
use crate::labels::{SatKey, sat_key, version_labels, device_labels, text_or, make_version_labels,
    make_device_labels};
use crate::series::{SeriesVec, InfoSeries};

verus! {

/// What the exporter exports, chosen at start-up.  The numbers that are
/// fractional (`pps_time1`, `geo_lat`, `geo_lon`, `geo_bucket_size`) are
/// carried as binary64 bit patterns.
#[derive(Clone, Copy, Debug)]
pub struct MetricsConfig {
    pub monitor_satellites: bool,
    pub pps_histogram: bool,
    pub pps_bucket_size: i64,
    pub pps_bucket_count: i64,
    pub pps_time1: u64,
    pub geo_offset: bool,
    pub geo_lat: u64,
    pub geo_lon: u64,
    pub geo_bucket_size: u64,
    pub geo_bucket_count: i64,
}

/// The per-satellite families, each a map from satellite key to value.
pub struct SatelliteModel {
    pub ss: Map<SatKey, Reading>,
    pub az: Map<SatKey, Reading>,
    pub el: Map<SatKey, Reading>,
    pub used: Map<SatKey, Reading>,
    pub health: Map<SatKey, Reading>,
    pub sigid: Map<SatKey, Reading>,
    pub freqid: Map<SatKey, Reading>,
}

/// A family after a reading that may be absent.
pub open spec fn insert_if_some(m: Map<SatKey, Reading>, k: SatKey, v: Option<u64>) -> Map<SatKey, Reading> {
    match v {
        Some(bits) => m.insert(k, Reading::Bits(bits)),
        None => m,
    }
}

impl SatelliteModel {
    /// Every family without series.
    pub open spec fn empty() -> Self {
        SatelliteModel {
            ss: Map::empty(),
            az: Map::empty(),
            el: Map::empty(),
            used: Map::empty(),
            health: Map::empty(),
            sigid: Map::empty(),
            freqid: Map::empty(),
        }
    }

    /// The families after one satellite: each reading it holds sets the
    /// satellite's series, and its `used` series is set to 1 or 0 in any case.
    pub open spec fn record(self, sat: Satellite) -> Self {
        let k = sat_key(sat);
        SatelliteModel {
            ss: insert_if_some(self.ss, k, sat.ss),
            az: insert_if_some(self.az, k, sat.az),
            el: insert_if_some(self.el, k, sat.el),
            used: self.used.insert(k, if sat.used == Some(true) { Reading::Whole(1) } else { Reading::Whole(0) }),
            health: insert_if_some(self.health, k, sat.health),
            sigid: insert_if_some(self.sigid, k, sat.sigid),
            freqid: insert_if_some(self.freqid, k, sat.freqid),
        }
    }
}

/// The families that a satellite list leaves when it is recorded from empty families.
pub open spec fn sky_series(sats: Seq<Satellite>) -> SatelliteModel
    decreases sats.len(),
{
    if sats.len() == 0 {
        SatelliteModel::empty()
    } else {
        sky_series(sats.drop_last()).record(sats.last())
    }
}

/// The rows of the device family that a device list exports.
pub open spec fn device_rows(devs: Seq<Device>) -> Set<Seq<Seq<char>>>
    decreases devs.len(),
{
    if devs.len() == 0 {
        Set::empty()
    } else {
        device_rows(devs.drop_last()).insert(device_labels(devs.last()))
    }
}

/// The mathematical content of the store.
pub struct MetricsModel {
    pub config: MetricsConfig,
    pub tpv: TpvGauges,
    pub sky: SkyGauges,
    pub satellites: Option<SatelliteModel>,
    pub version_info: Set<Seq<Seq<char>>>,
    pub devices_info: Set<Seq<Seq<char>>>,
    pub gst: GstGauges,
    pub toff: ToffGauges,
    pub pps: PpsGauges,
    pub osc: OscGauges,
}

/// The per-satellite families after a sky view.  When satellites are
/// monitored, a view with a satellite list replaces every family by the
/// series of that list; otherwise they stay as they are.
pub open spec fn satellites_after(config: MetricsConfig, sv: Option<SatelliteModel>, sky: Sky) -> Option<SatelliteModel> {
    match sky.satellites {
        Some(sats) => if config.monitor_satellites && sv is Some {
            Some(sky_series(sats@))
        } else {
            sv
        },
        None => sv,
    }
}

impl MetricsModel {
    /// The store when the exporter starts: every gauge 0, empty families, and
    /// per-satellite families exactly when satellites are monitored.
    pub open spec fn initial(config: MetricsConfig) -> Self {
        MetricsModel {
            config,
            tpv: TpvGauges::zeroed(),
            sky: SkyGauges::zeroed(),
            satellites: if config.monitor_satellites { Some(SatelliteModel::empty()) } else { None },
            version_info: Set::empty(),
            devices_info: Set::empty(),
            gst: GstGauges::zeroed(),
            toff: ToffGauges::zeroed(),
            pps: PpsGauges::zeroed(),
            osc: OscGauges::zeroed(),
        }
    }

    /// The store after one report.  Each class touches its own gauges only;
    /// VERSION and DEVICES add their rows to the information families; WATCH
    /// changes nothing.
    pub open spec fn after(self, msg: GpsdMessage) -> Self {
        match msg {
            GpsdMessage::TPV(t) => MetricsModel { tpv: self.tpv.after(*t), ..self },
            GpsdMessage::SKY(s) => MetricsModel {
                sky: self.sky.after(*s),
                satellites: satellites_after(self.config, self.satellites, *s),
                ..self
            },
            GpsdMessage::PPS(p) => MetricsModel { pps: self.pps.after(p), ..self },
            GpsdMessage::GST(g) => MetricsModel { gst: self.gst.after(g), ..self },
            GpsdMessage::TOFF(t) => MetricsModel { toff: self.toff.after(t), ..self },
            GpsdMessage::OSC(o) => MetricsModel { osc: self.osc.after(o), ..self },
            GpsdMessage::VERSION(v) => MetricsModel {
                version_info: self.version_info.insert(version_labels(v)),
                ..self
            },
            GpsdMessage::DEVICES(d) => MetricsModel {
                devices_info: self.devices_info.union(device_rows(d.devices@)),
                ..self
            },
            GpsdMessage::WATCH(_) => self,
        }
    }
}

/// A histogram observation that a report makes due.  The value to observe
/// is computed from the readings it carries (binary64 bit patterns).
pub enum Observation {
    /// Observe the PPS clock offset of `device` from its `clock_nsec` reading.
    PpsOffset { device: String, clock_nsec: u64 },
    /// Observe the distance and the east and north offsets of a fix from the
    /// reference point.
    GeoFix { lat: u64, lon: u64 },
}

/// Whether a report makes a histogram observation due: a PPS report with a
/// `clock_nsec` reading when the PPS histogram is on, and a TPV report with
/// both coordinates when geo-offset tracking is on.
pub open spec fn observes(config: MetricsConfig, msg: GpsdMessage) -> bool {
    match msg {
        GpsdMessage::PPS(p) => config.pps_histogram && p.clock_nsec is Some,
        GpsdMessage::TPV(t) => config.geo_offset && t.lat is Some && t.lon is Some,
        _ => false,
    }
}

/// Whether `obs` is the observation, if any, that `msg` makes due: the PPS
/// observation carries the device (`unknown` when absent) and the
/// `clock_nsec` reading; the geo observation carries the coordinates.
pub open spec fn observation_of(config: MetricsConfig, msg: GpsdMessage, obs: Option<Observation>) -> bool {
    &&& obs is Some <==> observes(config, msg)
    &&& match obs {
        Some(Observation::PpsOffset { device, clock_nsec }) => match msg {
            GpsdMessage::PPS(p) => p.clock_nsec == Some(clock_nsec) && device@ == text_or(p.device, "unknown"@),
            _ => false,
        },
        Some(Observation::GeoFix { lat, lon }) => match msg {
            GpsdMessage::TPV(t) => t.lat == Some(lat) && t.lon == Some(lon),
            _ => false,
        },
        None => true,
    }
}

/// The per-satellite gauge families.
pub struct SatelliteVecs {
    pub ss: SeriesVec,
    pub az: SeriesVec,
    pub el: SeriesVec,
    pub used: SeriesVec,
    pub health: SeriesVec,
    pub sigid: SeriesVec,
    pub freqid: SeriesVec,
}

impl View for SatelliteVecs {
    type V = SatelliteModel;

    open spec fn view(&self) -> SatelliteModel {
        SatelliteModel {
            ss: self.ss@,
            az: self.az@,
            el: self.el@,
            used: self.used@,
            health: self.health@,
            sigid: self.sigid@,
            freqid: self.freqid@,
        }
    }
}

fn set_series_if_some(v: &mut SeriesVec, k: SatKey, value: Option<u64>)
    ensures
        final(v)@ == insert_if_some(old(v)@, k, value),
{
    if let Some(bits) = value {
        v.set(k, Reading::Bits(bits));
    }
}

impl SatelliteVecs {
    /// Every family without series.
    pub fn new() -> (v: SatelliteVecs)
        ensures
            v@ == SatelliteModel::empty(),
    {
        SatelliteVecs {
            ss: SeriesVec::new(),
            az: SeriesVec::new(),
            el: SeriesVec::new(),
            used: SeriesVec::new(),
            health: SeriesVec::new(),
            sigid: SeriesVec::new(),
            freqid: SeriesVec::new(),
        }
    }

    /// Removes every series of every family.
    pub fn reset(&mut self)
        ensures
            final(self)@ == SatelliteModel::empty(),
    {
        self.ss.reset();
        self.az.reset();
        self.el.reset();
        self.used.reset();
        self.health.reset();
        self.sigid.reset();
        self.freqid.reset();
    }

    /// Sets the series of one satellite.
    pub fn record(&mut self, sat: &Satellite)
        ensures
            final(self)@ == old(self)@.record(*sat),
    {
        let k = SatKey::of(sat);
        set_series_if_some(&mut self.ss, k, sat.ss);
        set_series_if_some(&mut self.az, k, sat.az);
        set_series_if_some(&mut self.el, k, sat.el);
        let used = match sat.used {
            Some(true) => Reading::Whole(1),
            _ => Reading::Whole(0),
        };
        self.used.set(k, used);
        set_series_if_some(&mut self.health, k, sat.health);
        set_series_if_some(&mut self.sigid, k, sat.sigid);
        set_series_if_some(&mut self.freqid, k, sat.freqid);
    }

    /// Replaces every family by the series of a satellite list.
    pub fn replace_with(&mut self, sats: &Vec<Satellite>)
        ensures
            final(self)@ == sky_series(sats@),
    {
        self.reset();
        let mut i: usize = 0;
        while i < sats.len()
            invariant
                i <= sats.len(),
                self@ == sky_series(sats@.take(i as int)),
            decreases sats.len() - i,
        {
            assert(sats@.take((i + 1) as int).drop_last() =~= sats@.take(i as int));
            self.record(&sats[i]);
            i = i + 1;
        }
        assert(sats@.take(i as int) =~= sats@);
    }
}

/// The store of every metric the exporter exports.
pub struct Metrics {
    pub config: MetricsConfig,
    pub tpv: TpvGauges,
    pub sky: SkyGauges,
    /// Present exactly when satellites are monitored.
    pub satellites: Option<SatelliteVecs>,
    pub version_info: InfoSeries,
    pub devices_info: InfoSeries,
    pub gst: GstGauges,
    pub toff: ToffGauges,
    pub pps: PpsGauges,
    pub osc: OscGauges,
}

impl View for Metrics {
    type V = MetricsModel;

    open spec fn view(&self) -> MetricsModel {
        MetricsModel {
            config: self.config,
            tpv: self.tpv,
            sky: self.sky,
            satellites: match self.satellites {
                Some(v) => Some(v@),
                None => None,
            },
            version_info: self.version_info@,
            devices_info: self.devices_info@,
            gst: self.gst,
            toff: self.toff,
            pps: self.pps,
            osc: self.osc,
        }
    }
}

impl Metrics {
    /// The store at start-up for `config`.
    pub fn new(config: MetricsConfig) -> (m: Metrics)
        ensures
            m@ == MetricsModel::initial(config),
    {
        let satellites = if config.monitor_satellites {
            Some(SatelliteVecs::new())
        } else {
            None
        };
        Metrics {
            config,
            tpv: TpvGauges::zero(),
            sky: SkyGauges::zero(),
            satellites,
            version_info: InfoSeries::new(),
            devices_info: InfoSeries::new(),
            gst: GstGauges::zero(),
            toff: ToffGauges::zero(),
            pps: PpsGauges::zero(),
            osc: OscGauges::zero(),
        }
    }

    /// Applies one report to the store and returns the histogram observation
    /// that it makes due, if any.
    pub fn process(&mut self, msg: &GpsdMessage) -> (obs: Option<Observation>)
        ensures
            final(self)@ == old(self)@.after(*msg),
            observation_of(old(self).config, *msg, obs),
    {
        match msg {
            GpsdMessage::TPV(tpv) => self.process_tpv(tpv),
            GpsdMessage::SKY(sky) => {
                self.process_sky(sky);
                None
            },
            GpsdMessage::PPS(pps) => self.process_pps(pps),
            GpsdMessage::GST(gst) => {
                self.gst.update(gst);
                None
            },
            GpsdMessage::TOFF(toff) => {
                self.toff.update(toff);
                None
            },
            GpsdMessage::OSC(osc) => {
                self.osc.update(osc);
                None
            },
            GpsdMessage::VERSION(v) => {
                self.process_version(v);
                None
            },
            GpsdMessage::DEVICES(d) => {
                self.process_devices(d);
                None
            },
            GpsdMessage::WATCH(_) => None,
        }
    }

    fn process_tpv(&mut self, tpv: &Tpv) -> (obs: Option<Observation>)
        ensures
            final(self)@ == old(self)@.after(GpsdMessage::TPV(Box::new(*tpv))),
            observation_of(old(self).config, GpsdMessage::TPV(Box::new(*tpv)), obs),
    {
        self.tpv.update(tpv);
        if self.config.geo_offset {
            match (tpv.lat, tpv.lon) {
                (Some(lat), Some(lon)) => Some(Observation::GeoFix { lat, lon }),
                _ => None,
            }
        } else {
            None
        }
    }

    fn process_sky(&mut self, sky: &Sky)
        ensures
            final(self)@ == old(self)@.after(GpsdMessage::SKY(Box::new(*sky))),
    {
        self.sky.update(sky);
        if let Some(sats) = &sky.satellites {
            if self.config.monitor_satellites {
                if let Some(vecs) = &mut self.satellites {
                    vecs.replace_with(sats);
                }
            }
        }
    }

    fn process_pps(&mut self, pps: &Pps) -> (obs: Option<Observation>)
        ensures
            final(self)@ == old(self)@.after(GpsdMessage::PPS(*pps)),
            observation_of(old(self).config, GpsdMessage::PPS(*pps), obs),
    {
        self.pps.update(pps);
        if self.config.pps_histogram {
            if let Some(clock_nsec) = pps.clock_nsec {
                let device = match &pps.device {
                    Some(d) => d.clone(),
                    None => String::from_str("unknown"),
                };
                return Some(Observation::PpsOffset { device, clock_nsec });
            }
        }
        None
    }

    fn process_version(&mut self, v: &Version)
        ensures
            final(self)@ == old(self)@.after(GpsdMessage::VERSION(*v)),
    {
        let row = make_version_labels(v);
        self.version_info.insert(row);
    }

    fn process_devices(&mut self, d: &Devices)
        ensures
            final(self)@ == old(self)@.after(GpsdMessage::DEVICES(*d)),
    {
        add_device_rows(&mut self.devices_info, &d.devices);
    }
}

/// Adds the row of each device to the device family.
fn add_device_rows(info: &mut InfoSeries, devs: &Vec<Device>)
    ensures
        final(info)@ == old(info)@.union(device_rows(devs@)),
{
    let ghost start = info@;
    let mut i: usize = 0;
    while i < devs.len()
        invariant
            i <= devs.len(),
            info@ == start.union(device_rows(devs@.take(i as int))),
        decreases devs.len() - i,
    {
        let row = make_device_labels(&devs[i]);
        info.insert(row);
        proof {
            let s = devs@;
            assert(s.take((i + 1) as int).drop_last() =~= s.take(i as int));
            assert(s.take((i + 1) as int).last() == s[i as int]);
            assert(start.union(device_rows(s.take(i as int))).insert(device_labels(s[i as int]))
                =~= start.union(device_rows(s.take((i + 1) as int))));
        }
        i = i + 1;
    }
    assert(devs@.take(i as int) =~= devs@);
}

/// Each plain gauge that the exporter exports, by its metric name, with its value in `m`.
pub open spec fn gauge_row_spec(m: Metrics) -> Seq<(Seq<char>, Reading)> {
    seq![
        ("gpsd_lat"@, m.tpv.lat),
        ("gpsd_long"@, m.tpv.lon),
        ("gpsd_altHAE"@, m.tpv.alt_hae),
        ("gpsd_altMSL"@, m.tpv.alt_msl),
        ("gpsd_mode"@, m.tpv.mode),
        ("gpsd_status"@, m.tpv.status),
        ("gpsd_leapseconds"@, m.tpv.leapseconds),
        ("gpsd_magvar"@, m.tpv.magvar),
        ("gpsd_ept"@, m.tpv.ept),
        ("gpsd_epx"@, m.tpv.epx),
        ("gpsd_epy"@, m.tpv.epy),
        ("gpsd_epv"@, m.tpv.epv),
        ("gpsd_eps"@, m.tpv.eps),
        ("gpsd_epc"@, m.tpv.epc),
        ("gpsd_epd"@, m.tpv.epd),
        ("gpsd_eph"@, m.tpv.eph),
        ("gpsd_sep"@, m.tpv.sep),
        ("gpsd_geoidSep"@, m.tpv.geoid_sep),
        ("gpsd_ecefx"@, m.tpv.ecefx),
        ("gpsd_ecefy"@, m.tpv.ecefy),
        ("gpsd_ecefz"@, m.tpv.ecefz),
        ("gpsd_ecefvx"@, m.tpv.ecefvx),
        ("gpsd_ecefvy"@, m.tpv.ecefvy),
        ("gpsd_ecefvz"@, m.tpv.ecefvz),
        ("gpsd_ecefpAcc"@, m.tpv.ecefp_acc),
        ("gpsd_ecefvAcc"@, m.tpv.ecefv_acc),
        ("gpsd_velN"@, m.tpv.vel_n),
        ("gpsd_velE"@, m.tpv.vel_e),
        ("gpsd_velD"@, m.tpv.vel_d),
        ("gpsd_speed"@, m.tpv.speed),
        ("gpsd_track"@, m.tpv.track),
        ("gpsd_magtrack"@, m.tpv.magtrack),
        ("gpsd_climb"@, m.tpv.climb),
        ("gpsd_depth"@, m.tpv.depth),
        ("gpsd_dgpsAge"@, m.tpv.dgps_age),
        ("gpsd_dgpsSta"@, m.tpv.dgps_sta),
        ("gpsd_relN"@, m.tpv.rel_n),
        ("gpsd_relE"@, m.tpv.rel_e),
        ("gpsd_relD"@, m.tpv.rel_d),
        ("gpsd_gdop"@, m.sky.gdop),
        ("gpsd_hdop"@, m.sky.hdop),
        ("gpsd_pdop"@, m.sky.pdop),
        ("gpsd_tdop"@, m.sky.tdop),
        ("gpsd_vdop"@, m.sky.vdop),
        ("gpsd_xdop"@, m.sky.xdop),
        ("gpsd_ydop"@, m.sky.ydop),
        ("gpsd_nSat"@, m.sky.n_sat),
        ("gpsd_uSat"@, m.sky.u_sat),
        ("gpsd_prRes"@, m.sky.pr_res),
        ("gpsd_qual"@, m.sky.qual),
        ("gpsd_sat_used"@, m.sky.sat_used),
        ("gpsd_sat_seen"@, m.sky.sat_seen),
        ("gpsd_gst_rms"@, m.gst.rms),
        ("gpsd_gst_major"@, m.gst.major),
        ("gpsd_gst_minor"@, m.gst.minor),
        ("gpsd_gst_orient"@, m.gst.orient),
        ("gpsd_gst_lat"@, m.gst.lat),
        ("gpsd_gst_lon"@, m.gst.lon),
        ("gpsd_gst_alt"@, m.gst.alt),
        ("gpsd_toff_real_sec"@, m.toff.real_sec),
        ("gpsd_toff_real_nsec"@, m.toff.real_nsec),
        ("gpsd_toff_clock_sec"@, m.toff.clock_sec),
        ("gpsd_toff_clock_nsec"@, m.toff.clock_nsec),
        ("gpsd_pps_real_sec"@, m.pps.real_sec),
        ("gpsd_pps_real_nsec"@, m.pps.real_nsec),
        ("gpsd_pps_clock_sec"@, m.pps.clock_sec),
        ("gpsd_pps_clock_nsec"@, m.pps.clock_nsec),
        ("gpsd_pps_precision"@, m.pps.precision),
        ("gpsd_pps_qErr"@, m.pps.q_err),
        ("gpsd_osc_running"@, m.osc.running),
        ("gpsd_osc_reference"@, m.osc.reference),
        ("gpsd_osc_disciplined"@, m.osc.disciplined),
        ("gpsd_osc_delta"@, m.osc.delta),
    ]
}

/// The metric names of the plain gauges with the value each shows, in the
/// order of the report classes: TPV, SKY, GST, TOFF, PPS, OSC.
pub fn gauge_rows(m: &Metrics) -> (rows: Vec<(&'static str, Reading)>)
    ensures
        rows@.len() == 73,
        forall|k: int| 0 <= k < 73 ==> (#[trigger] rows@[k].0@, rows@[k].1) == gauge_row_spec(*m)[k],
{
    let mut rows: Vec<(&'static str, Reading)> = Vec::new();
    rows.push(("gpsd_lat", m.tpv.lat));
    rows.push(("gpsd_long", m.tpv.lon));
    rows.push(("gpsd_altHAE", m.tpv.alt_hae));
    rows.push(("gpsd_altMSL", m.tpv.alt_msl));
    rows.push(("gpsd_mode", m.tpv.mode));
    rows.push(("gpsd_status", m.tpv.status));
    rows.push(("gpsd_leapseconds", m.tpv.leapseconds));
    rows.push(("gpsd_magvar", m.tpv.magvar));
    rows.push(("gpsd_ept", m.tpv.ept));
    rows.push(("gpsd_epx", m.tpv.epx));
    rows.push(("gpsd_epy", m.tpv.epy));
    rows.push(("gpsd_epv", m.tpv.epv));
    rows.push(("gpsd_eps", m.tpv.eps));
    rows.push(("gpsd_epc", m.tpv.epc));
    rows.push(("gpsd_epd", m.tpv.epd));
    rows.push(("gpsd_eph", m.tpv.eph));
    rows.push(("gpsd_sep", m.tpv.sep));
    rows.push(("gpsd_geoidSep", m.tpv.geoid_sep));
    rows.push(("gpsd_ecefx", m.tpv.ecefx));
    rows.push(("gpsd_ecefy", m.tpv.ecefy));
    rows.push(("gpsd_ecefz", m.tpv.ecefz));
    rows.push(("gpsd_ecefvx", m.tpv.ecefvx));
    rows.push(("gpsd_ecefvy", m.tpv.ecefvy));
    rows.push(("gpsd_ecefvz", m.tpv.ecefvz));
    rows.push(("gpsd_ecefpAcc", m.tpv.ecefp_acc));
    rows.push(("gpsd_ecefvAcc", m.tpv.ecefv_acc));
    rows.push(("gpsd_velN", m.tpv.vel_n));
    rows.push(("gpsd_velE", m.tpv.vel_e));
    rows.push(("gpsd_velD", m.tpv.vel_d));
    rows.push(("gpsd_speed", m.tpv.speed));
    rows.push(("gpsd_track", m.tpv.track));
    rows.push(("gpsd_magtrack", m.tpv.magtrack));
    rows.push(("gpsd_climb", m.tpv.climb));
    rows.push(("gpsd_depth", m.tpv.depth));
    rows.push(("gpsd_dgpsAge", m.tpv.dgps_age));
    rows.push(("gpsd_dgpsSta", m.tpv.dgps_sta));
    rows.push(("gpsd_relN", m.tpv.rel_n));
    rows.push(("gpsd_relE", m.tpv.rel_e));
    rows.push(("gpsd_relD", m.tpv.rel_d));
    rows.push(("gpsd_gdop", m.sky.gdop));
    rows.push(("gpsd_hdop", m.sky.hdop));
    rows.push(("gpsd_pdop", m.sky.pdop));
    rows.push(("gpsd_tdop", m.sky.tdop));
    rows.push(("gpsd_vdop", m.sky.vdop));
    rows.push(("gpsd_xdop", m.sky.xdop));
    rows.push(("gpsd_ydop", m.sky.ydop));
    rows.push(("gpsd_nSat", m.sky.n_sat));
    rows.push(("gpsd_uSat", m.sky.u_sat));
    rows.push(("gpsd_prRes", m.sky.pr_res));
    rows.push(("gpsd_qual", m.sky.qual));
    rows.push(("gpsd_sat_used", m.sky.sat_used));
    rows.push(("gpsd_sat_seen", m.sky.sat_seen));
    rows.push(("gpsd_gst_rms", m.gst.rms));
    rows.push(("gpsd_gst_major", m.gst.major));
    rows.push(("gpsd_gst_minor", m.gst.minor));
    rows.push(("gpsd_gst_orient", m.gst.orient));
    rows.push(("gpsd_gst_lat", m.gst.lat));
    rows.push(("gpsd_gst_lon", m.gst.lon));
    rows.push(("gpsd_gst_alt", m.gst.alt));
    rows.push(("gpsd_toff_real_sec", m.toff.real_sec));
    rows.push(("gpsd_toff_real_nsec", m.toff.real_nsec));
    rows.push(("gpsd_toff_clock_sec", m.toff.clock_sec));
    rows.push(("gpsd_toff_clock_nsec", m.toff.clock_nsec));
    rows.push(("gpsd_pps_real_sec", m.pps.real_sec));
    rows.push(("gpsd_pps_real_nsec", m.pps.real_nsec));
    rows.push(("gpsd_pps_clock_sec", m.pps.clock_sec));
    rows.push(("gpsd_pps_clock_nsec", m.pps.clock_nsec));
    rows.push(("gpsd_pps_precision", m.pps.precision));
    rows.push(("gpsd_pps_qErr", m.pps.q_err));
    rows.push(("gpsd_osc_running", m.osc.running));
    rows.push(("gpsd_osc_reference", m.osc.reference));
    rows.push(("gpsd_osc_disciplined", m.osc.disciplined));
    rows.push(("gpsd_osc_delta", m.osc.delta));
    assert(rows@.map_values(|p: (&'static str, Reading)| (p.0@, p.1)) =~= gauge_row_spec(*m));
    proof {
        assert forall|k: int| 0 <= k < 73 implies (#[trigger] rows@[k].0@, rows@[k].1) == gauge_row_spec(*m)[k] by {
            assert(rows@.map_values(|p: (&'static str, Reading)| (p.0@, p.1))[k] == (rows@[k].0@, rows@[k].1));
        }
    }
    rows
}

/// The help text of every metric the exporter may export, by metric name.
pub open spec fn help_spec() -> Seq<(Seq<char>, Seq<char>)> {
    seq![
        ("gpsd_lat"@, "Latitude in degrees: +/- signifies North/South"@),
        ("gpsd_long"@, "Longitude in degrees: +/- signifies East/West"@),
        ("gpsd_altHAE"@, "Altitude, height above ellipsoid, in meters"@),
        ("gpsd_altMSL"@, "MSL Altitude in meters"@),
        ("gpsd_mode"@, "NMEA mode: 0=unknown, 1=no fix, 2=2D, 3=3D"@),
        ("gpsd_status"@, "GPS fix status: 2=DGPS, 3=RTK Fixed, 4=RTK Float"@),
        ("gpsd_leapseconds"@, "Current leap seconds"@),
        ("gpsd_magvar"@, "Magnetic variation, degrees"@),
        ("gpsd_ept"@, "Estimated timestamp error in seconds"@),
        ("gpsd_epx"@, "Longitude error estimate in meters"@),
        ("gpsd_epy"@, "Latitude error estimate in meters"@),
        ("gpsd_epv"@, "Estimated vertical error in meters"@),
        ("gpsd_eps"@, "Estimated speed error in meters per second"@),
        ("gpsd_epc"@, "Estimated climb error in meters per second"@),
        ("gpsd_epd"@, "Estimated track direction error in degrees"@),
        ("gpsd_eph"@, "Estimated horizontal position error in meters"@),
        ("gpsd_sep"@, "Estimated spherical position error in meters"@),
        ("gpsd_geoidSep"@, "Geoid separation in meters"@),
        ("gpsd_ecefx"@, "ECEF X position in meters"@),
        ("gpsd_ecefy"@, "ECEF Y position in meters"@),
        ("gpsd_ecefz"@, "ECEF Z position in meters"@),
        ("gpsd_ecefvx"@, "ECEF X velocity in meters per second"@),
        ("gpsd_ecefvy"@, "ECEF Y velocity in meters per second"@),
        ("gpsd_ecefvz"@, "ECEF Z velocity in meters per second"@),
        ("gpsd_ecefpAcc"@, "ECEF position error in meters"@),
        ("gpsd_ecefvAcc"@, "ECEF velocity error in meters per second"@),
        ("gpsd_velN"@, "North velocity component in meters"@),
        ("gpsd_velE"@, "East velocity component in meters"@),
        ("gpsd_velD"@, "Down velocity component in meters"@),
        ("gpsd_speed"@, "Speed over ground, meters per second"@),
        ("gpsd_track"@, "Course over ground, degrees from true north"@),
        ("gpsd_magtrack"@, "Course over ground, degrees magnetic"@),
        ("gpsd_climb"@, "Climb rate, meters per second"@),
        ("gpsd_depth"@, "Depth in meters"@),
        ("gpsd_dgpsAge"@, "Age of DGPS data in seconds"@),
        ("gpsd_dgpsSta"@, "Station of DGPS data"@),
        ("gpsd_relN"@, "North component of relative position vector"@),
        ("gpsd_relE"@, "East component of relative position vector"@),
        ("gpsd_relD"@, "Down component of relative position vector"@),
        ("gpsd_gdop"@, "Geometric dilution of precision"@),
        ("gpsd_hdop"@, "Horizontal dilution of precision"@),
        ("gpsd_pdop"@, "Position dilution of precision"@),
        ("gpsd_tdop"@, "Time dilution of precision"@),
        ("gpsd_vdop"@, "Vertical dilution of precision"@),
        ("gpsd_xdop"@, "Latitudinal dilution of precision"@),
        ("gpsd_ydop"@, "Longitudinal dilution of precision"@),
        ("gpsd_nSat"@, "Number of satellite objects in skyview"@),
        ("gpsd_uSat"@, "Number of satellites used in navigation solution"@),
        ("gpsd_prRes"@, "Pseudorange residue in meters"@),
        ("gpsd_qual"@, "Quality indicator"@),
        ("gpsd_sat_used"@, "Satellites used in current solution"@),
        ("gpsd_sat_seen"@, "Satellites seen in current solution"@),
        ("gpsd_gst_rms"@, "Standard deviation of range inputs to navigation"@),
        ("gpsd_gst_major"@, "Standard deviation of semi-major axis of error ellipse in meters"@),
        ("gpsd_gst_minor"@, "Standard deviation of semi-minor axis of error ellipse in meters"@),
        ("gpsd_gst_orient"@, "Orientation of semi-major axis of error ellipse in degrees"@),
        ("gpsd_gst_lat"@, "Standard deviation of latitude error in meters"@),
        ("gpsd_gst_lon"@, "Standard deviation of longitude error in meters"@),
        ("gpsd_gst_alt"@, "Standard deviation of altitude error in meters"@),
        ("gpsd_toff_real_sec"@, "Seconds from the GPS clock"@),
        ("gpsd_toff_real_nsec"@, "Nanoseconds from the GPS clock"@),
        ("gpsd_toff_clock_sec"@, "Seconds from the system clock"@),
        ("gpsd_toff_clock_nsec"@, "Nanoseconds from the system clock"@),
        ("gpsd_pps_real_sec"@, "Seconds from the PPS source"@),
        ("gpsd_pps_real_nsec"@, "Nanoseconds from the PPS source"@),
        ("gpsd_pps_clock_sec"@, "Seconds from the system clock"@),
        ("gpsd_pps_clock_nsec"@, "Nanoseconds from the system clock"@),
        ("gpsd_pps_precision"@, "NTP style estimate of PPS precision"@),
        ("gpsd_pps_qErr"@, "Quantization error of PPS in picoseconds"@),
        ("gpsd_osc_running"@, "Oscillator is currently running"@),
        ("gpsd_osc_reference"@, "Oscillator is receiving GPS PPS signal"@),
        ("gpsd_osc_disciplined"@, "GPS PPS is disciplining local oscillator"@),
        ("gpsd_osc_delta"@, "Time difference in nanoseconds between oscillator PPS and GPS PPS"@),
        ("gpsd_version_info"@, "GPSD version details"@),
        ("gpsd_devices_info"@, "GPSD device details"@),
        ("gpsd_sat_ss"@, "Signal to noise ratio in dBHz"@),
        ("gpsd_sat_az"@, "Azimuth, degrees from true north"@),
        ("gpsd_sat_el"@, "Elevation in degrees"@),
        ("gpsd_used"@, "Used satellite"@),
        ("gpsd_health"@, "Satellite health: 0=unknown, 1=OK, 2=unhealthy"@),
        ("gpsd_sat_sigid"@, "Signal ID"@),
        ("gpsd_sat_freqid"@, "GLONASS frequency ID"@),
        ("gpsd_pps_histogram"@, "PPS clock offset in nanoseconds"@),
        ("gpsd_geo_offset_m_histogram"@, "Geo offset from reference point in meters"@),
        ("gpsd_geo_bearing_x_histogram"@, "X offset in meters from static geo point"@),
        ("gpsd_geo_bearing_y_histogram"@, "Y offset in meters from static geo point"@),
    ]
}

/// The help text of every metric the exporter may export, by metric name.
pub fn help_texts() -> (h: Vec<(&'static str, &'static str)>)
    ensures
        h.deep_view() == help_spec(),
{
    let mut h: Vec<(&'static str, &'static str)> = Vec::new();
    h.push(("gpsd_lat", "Latitude in degrees: +/- signifies North/South"));
    h.push(("gpsd_long", "Longitude in degrees: +/- signifies East/West"));
    h.push(("gpsd_altHAE", "Altitude, height above ellipsoid, in meters"));
    h.push(("gpsd_altMSL", "MSL Altitude in meters"));
    h.push(("gpsd_mode", "NMEA mode: 0=unknown, 1=no fix, 2=2D, 3=3D"));
    h.push(("gpsd_status", "GPS fix status: 2=DGPS, 3=RTK Fixed, 4=RTK Float"));
    h.push(("gpsd_leapseconds", "Current leap seconds"));
    h.push(("gpsd_magvar", "Magnetic variation, degrees"));
    h.push(("gpsd_ept", "Estimated timestamp error in seconds"));
    h.push(("gpsd_epx", "Longitude error estimate in meters"));
    h.push(("gpsd_epy", "Latitude error estimate in meters"));
    h.push(("gpsd_epv", "Estimated vertical error in meters"));
    h.push(("gpsd_eps", "Estimated speed error in meters per second"));
    h.push(("gpsd_epc", "Estimated climb error in meters per second"));
    h.push(("gpsd_epd", "Estimated track direction error in degrees"));
    h.push(("gpsd_eph", "Estimated horizontal position error in meters"));
    h.push(("gpsd_sep", "Estimated spherical position error in meters"));
    h.push(("gpsd_geoidSep", "Geoid separation in meters"));
    h.push(("gpsd_ecefx", "ECEF X position in meters"));
    h.push(("gpsd_ecefy", "ECEF Y position in meters"));
    h.push(("gpsd_ecefz", "ECEF Z position in meters"));
    h.push(("gpsd_ecefvx", "ECEF X velocity in meters per second"));
    h.push(("gpsd_ecefvy", "ECEF Y velocity in meters per second"));
    h.push(("gpsd_ecefvz", "ECEF Z velocity in meters per second"));
    h.push(("gpsd_ecefpAcc", "ECEF position error in meters"));
    h.push(("gpsd_ecefvAcc", "ECEF velocity error in meters per second"));
    h.push(("gpsd_velN", "North velocity component in meters"));
    h.push(("gpsd_velE", "East velocity component in meters"));
    h.push(("gpsd_velD", "Down velocity component in meters"));
    h.push(("gpsd_speed", "Speed over ground, meters per second"));
    h.push(("gpsd_track", "Course over ground, degrees from true north"));
    h.push(("gpsd_magtrack", "Course over ground, degrees magnetic"));
    h.push(("gpsd_climb", "Climb rate, meters per second"));
    h.push(("gpsd_depth", "Depth in meters"));
    h.push(("gpsd_dgpsAge", "Age of DGPS data in seconds"));
    h.push(("gpsd_dgpsSta", "Station of DGPS data"));
    h.push(("gpsd_relN", "North component of relative position vector"));
    h.push(("gpsd_relE", "East component of relative position vector"));
    h.push(("gpsd_relD", "Down component of relative position vector"));
    h.push(("gpsd_gdop", "Geometric dilution of precision"));
    h.push(("gpsd_hdop", "Horizontal dilution of precision"));
    h.push(("gpsd_pdop", "Position dilution of precision"));
    h.push(("gpsd_tdop", "Time dilution of precision"));
    h.push(("gpsd_vdop", "Vertical dilution of precision"));
    h.push(("gpsd_xdop", "Latitudinal dilution of precision"));
    h.push(("gpsd_ydop", "Longitudinal dilution of precision"));
    h.push(("gpsd_nSat", "Number of satellite objects in skyview"));
    h.push(("gpsd_uSat", "Number of satellites used in navigation solution"));
    h.push(("gpsd_prRes", "Pseudorange residue in meters"));
    h.push(("gpsd_qual", "Quality indicator"));
    h.push(("gpsd_sat_used", "Satellites used in current solution"));
    h.push(("gpsd_sat_seen", "Satellites seen in current solution"));
    h.push(("gpsd_gst_rms", "Standard deviation of range inputs to navigation"));
    h.push(("gpsd_gst_major", "Standard deviation of semi-major axis of error ellipse in meters"));
    h.push(("gpsd_gst_minor", "Standard deviation of semi-minor axis of error ellipse in meters"));
    h.push(("gpsd_gst_orient", "Orientation of semi-major axis of error ellipse in degrees"));
    h.push(("gpsd_gst_lat", "Standard deviation of latitude error in meters"));
    h.push(("gpsd_gst_lon", "Standard deviation of longitude error in meters"));
    h.push(("gpsd_gst_alt", "Standard deviation of altitude error in meters"));
    h.push(("gpsd_toff_real_sec", "Seconds from the GPS clock"));
    h.push(("gpsd_toff_real_nsec", "Nanoseconds from the GPS clock"));
    h.push(("gpsd_toff_clock_sec", "Seconds from the system clock"));
    h.push(("gpsd_toff_clock_nsec", "Nanoseconds from the system clock"));
    h.push(("gpsd_pps_real_sec", "Seconds from the PPS source"));
    h.push(("gpsd_pps_real_nsec", "Nanoseconds from the PPS source"));
    h.push(("gpsd_pps_clock_sec", "Seconds from the system clock"));
    h.push(("gpsd_pps_clock_nsec", "Nanoseconds from the system clock"));
    h.push(("gpsd_pps_precision", "NTP style estimate of PPS precision"));
    h.push(("gpsd_pps_qErr", "Quantization error of PPS in picoseconds"));
    h.push(("gpsd_osc_running", "Oscillator is currently running"));
    h.push(("gpsd_osc_reference", "Oscillator is receiving GPS PPS signal"));
    h.push(("gpsd_osc_disciplined", "GPS PPS is disciplining local oscillator"));
    h.push(("gpsd_osc_delta", "Time difference in nanoseconds between oscillator PPS and GPS PPS"));
    h.push(("gpsd_version_info", "GPSD version details"));
    h.push(("gpsd_devices_info", "GPSD device details"));
    h.push(("gpsd_sat_ss", "Signal to noise ratio in dBHz"));
    h.push(("gpsd_sat_az", "Azimuth, degrees from true north"));
    h.push(("gpsd_sat_el", "Elevation in degrees"));
    h.push(("gpsd_used", "Used satellite"));
    h.push(("gpsd_health", "Satellite health: 0=unknown, 1=OK, 2=unhealthy"));
    h.push(("gpsd_sat_sigid", "Signal ID"));
    h.push(("gpsd_sat_freqid", "GLONASS frequency ID"));
    h.push(("gpsd_pps_histogram", "PPS clock offset in nanoseconds"));
    h.push(("gpsd_geo_offset_m_histogram", "Geo offset from reference point in meters"));
    h.push(("gpsd_geo_bearing_x_histogram", "X offset in meters from static geo point"));
    h.push(("gpsd_geo_bearing_y_histogram", "Y offset in meters from static geo point"));
    assert(h.deep_view() =~= help_spec());
    h
}

/// The labels of a satellite series.
pub open spec fn sat_label_names() -> Seq<Seq<char>> {
    seq!["PRN"@, "svid"@, "gnssid"@, "used"@]
}

/// The labelled metrics that `config` makes the exporter export, each with
/// its label names: the version and device families always; the seven
/// per-satellite families when satellites are monitored; the PPS histogram,
/// labelled by device, when it is on; the three unlabelled geo histograms when
/// geo-offset tracking is on.
pub open spec fn labelled_family_spec(config: MetricsConfig) -> Seq<(Seq<char>, Seq<Seq<char>>)> {
    seq![
        ("gpsd_version_info"@, seq!["release"@, "rev"@, "proto_major"@, "proto_minor"@]),
        ("gpsd_devices_info"@, seq![
            "device"@, "driver"@, "subtype"@, "subtype1"@, "activated"@, "flags"@, "native"@,
            "bps"@, "parity"@, "stopbits"@, "cycle"@, "mincycle"@,
        ]),
    ] + (if config.monitor_satellites {
        seq![
            ("gpsd_sat_ss"@, sat_label_names()),
            ("gpsd_sat_az"@, sat_label_names()),
            ("gpsd_sat_el"@, sat_label_names()),
            ("gpsd_used"@, sat_label_names()),
            ("gpsd_health"@, sat_label_names()),
            ("gpsd_sat_sigid"@, sat_label_names()),
            ("gpsd_sat_freqid"@, sat_label_names()),
        ]
    } else {
        Seq::empty()
    }) + (if config.pps_histogram {
        seq![("gpsd_pps_histogram"@, seq!["device"@])]
    } else {
        Seq::empty()
    }) + (if config.geo_offset {
        seq![
            ("gpsd_geo_offset_m_histogram"@, Seq::<Seq<char>>::empty()),
            ("gpsd_geo_bearing_x_histogram"@, Seq::<Seq<char>>::empty()),
            ("gpsd_geo_bearing_y_histogram"@, Seq::<Seq<char>>::empty()),
        ]
    } else {
        Seq::empty()
    })
}

fn sat_label_list() -> (l: Vec<&'static str>)
    ensures
        l.deep_view() == sat_label_names(),
{
    let l: Vec<&'static str> = vec!["PRN", "svid", "gnssid", "used"];
    assert(l.deep_view() =~= sat_label_names());
    l
}

fn version_label_list() -> (l: Vec<&'static str>)
    ensures
        l.deep_view() == seq!["release"@, "rev"@, "proto_major"@, "proto_minor"@],
{
    let l: Vec<&'static str> = vec!["release", "rev", "proto_major", "proto_minor"];
    assert(l.deep_view() =~= seq!["release"@, "rev"@, "proto_major"@, "proto_minor"@]);
    l
}

fn device_label_list() -> (l: Vec<&'static str>)
    ensures
        l.deep_view() == seq![
            "device"@, "driver"@, "subtype"@, "subtype1"@, "activated"@, "flags"@, "native"@,
            "bps"@, "parity"@, "stopbits"@, "cycle"@, "mincycle"@,
        ],
{
    let l: Vec<&'static str> = vec![
        "device", "driver", "subtype", "subtype1", "activated", "flags", "native", "bps", "parity",
        "stopbits", "cycle", "mincycle",
    ];
    assert(l.deep_view() =~= seq![
        "device"@, "driver"@, "subtype"@, "subtype1"@, "activated"@, "flags"@, "native"@,
        "bps"@, "parity"@, "stopbits"@, "cycle"@, "mincycle"@,
    ]);
    l
}

fn pps_label_list() -> (l: Vec<&'static str>)
    ensures
        l.deep_view() == seq!["device"@],
{
    let l: Vec<&'static str> = vec!["device"];
    assert(l.deep_view() =~= seq!["device"@]);
    l
}

fn no_labels() -> (l: Vec<&'static str>)
    ensures
        l.deep_view() == Seq::<Seq<char>>::empty(),
{
    let l: Vec<&'static str> = Vec::new();
    assert(l.deep_view() =~= Seq::<Seq<char>>::empty());
    l
}

/// The labelled metrics that `config` makes the exporter export, each with its label names.
pub fn labelled_families(config: MetricsConfig) -> (f: Vec<(&'static str, Vec<&'static str>)>)
    ensures
        f.deep_view() == labelled_family_spec(config),
{
    let mut f: Vec<(&'static str, Vec<&'static str>)> = Vec::new();
    f.push(("gpsd_version_info", version_label_list()));
    f.push(("gpsd_devices_info", device_label_list()));
    let ghost base = f.deep_view();
    assert(base =~= seq![
        ("gpsd_version_info"@, seq!["release"@, "rev"@, "proto_major"@, "proto_minor"@]),
        ("gpsd_devices_info"@, seq![
            "device"@, "driver"@, "subtype"@, "subtype1"@, "activated"@, "flags"@, "native"@,
            "bps"@, "parity"@, "stopbits"@, "cycle"@, "mincycle"@,
        ]),
    ]);
    let ghost sats: Seq<(Seq<char>, Seq<Seq<char>>)> = if config.monitor_satellites {
        seq![
            ("gpsd_sat_ss"@, sat_label_names()),
            ("gpsd_sat_az"@, sat_label_names()),
            ("gpsd_sat_el"@, sat_label_names()),
            ("gpsd_used"@, sat_label_names()),
            ("gpsd_health"@, sat_label_names()),
            ("gpsd_sat_sigid"@, sat_label_names()),
            ("gpsd_sat_freqid"@, sat_label_names()),
        ]
    } else {
        Seq::empty()
    };
    if config.monitor_satellites {
        f.push(("gpsd_sat_ss", sat_label_list()));
        f.push(("gpsd_sat_az", sat_label_list()));
        f.push(("gpsd_sat_el", sat_label_list()));
        f.push(("gpsd_used", sat_label_list()));
        f.push(("gpsd_health", sat_label_list()));
        f.push(("gpsd_sat_sigid", sat_label_list()));
        f.push(("gpsd_sat_freqid", sat_label_list()));
    }
    assert(f.deep_view() =~= base + sats);
    let ghost mid = f.deep_view();
    let ghost pps: Seq<(Seq<char>, Seq<Seq<char>>)> = if config.pps_histogram {
        seq![("gpsd_pps_histogram"@, seq!["device"@])]
    } else {
        Seq::empty()
    };
    if config.pps_histogram {
        f.push(("gpsd_pps_histogram", pps_label_list()));
    }
    assert(f.deep_view() =~= mid + pps);
    let ghost mid2 = f.deep_view();
    let ghost geo: Seq<(Seq<char>, Seq<Seq<char>>)> = if config.geo_offset {
        seq![
            ("gpsd_geo_offset_m_histogram"@, Seq::<Seq<char>>::empty()),
            ("gpsd_geo_bearing_x_histogram"@, Seq::<Seq<char>>::empty()),
            ("gpsd_geo_bearing_y_histogram"@, Seq::<Seq<char>>::empty()),
        ]
    } else {
        Seq::empty()
    };
    if config.geo_offset {
        f.push(("gpsd_geo_offset_m_histogram", no_labels()));
        f.push(("gpsd_geo_bearing_x_histogram", no_labels()));
        f.push(("gpsd_geo_bearing_y_histogram", no_labels()));
    }
    assert(f.deep_view() =~= mid2 + geo);
    f
}

/// The per-satellite families by metric name.
pub open spec fn satellite_family_spec(v: SatelliteModel) -> Seq<(Seq<char>, Map<SatKey, Reading>)> {
    seq![
        ("gpsd_sat_ss"@, v.ss),
        ("gpsd_sat_az"@, v.az),
        ("gpsd_sat_el"@, v.el),
        ("gpsd_used"@, v.used),
        ("gpsd_health"@, v.health),
        ("gpsd_sat_sigid"@, v.sigid),
        ("gpsd_sat_freqid"@, v.freqid),
    ]
}

/// The per-satellite families, each with its metric name.
pub fn satellite_rows<'a>(v: &'a SatelliteVecs) -> (rows: Vec<(&'static str, &'a SeriesVec)>)
    ensures
        rows@.len() == 7,
        forall|k: int| 0 <= k < 7 ==> (#[trigger] rows@[k].0@, rows@[k].1@) == satellite_family_spec(v@)[k],
{
    let mut rows: Vec<(&'static str, &'a SeriesVec)> = Vec::new();
    rows.push(("gpsd_sat_ss", &v.ss));
    rows.push(("gpsd_sat_az", &v.az));
    rows.push(("gpsd_sat_el", &v.el));
    rows.push(("gpsd_used", &v.used));
    rows.push(("gpsd_health", &v.health));
    rows.push(("gpsd_sat_sigid", &v.sigid));
    rows.push(("gpsd_sat_freqid", &v.freqid));
    rows
}

/// The information families by metric name.
pub open spec fn info_family_spec(m: MetricsModel) -> Seq<(Seq<char>, Set<Seq<Seq<char>>>)> {
    seq![("gpsd_version_info"@, m.version_info), ("gpsd_devices_info"@, m.devices_info)]
}

/// The information families, each with its metric name.
pub fn info_rows<'a>(m: &'a Metrics) -> (rows: Vec<(&'static str, &'a InfoSeries)>)
    ensures
        rows@.len() == 2,
        forall|k: int| 0 <= k < 2 ==> (#[trigger] rows@[k].0@, rows@[k].1@) == info_family_spec(m@)[k],
{
    let mut rows: Vec<(&'static str, &'a InfoSeries)> = Vec::new();
    rows.push(("gpsd_version_info", &m.version_info));
    rows.push(("gpsd_devices_info", &m.devices_info));
    rows
}

} // verus!
