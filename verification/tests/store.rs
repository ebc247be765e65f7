use gpsd_exporter::gauges::Reading;
use gpsd_exporter::gpsd::{
    Device, Devices, GpsdMessage, Gst, Osc, Pps, Satellite, Sky, Toff, Tpv, Version, Watch,
};
use gpsd_exporter::labels::SatKey;
use gpsd_exporter::metrics::{Metrics, MetricsConfig, Observation};
use gpsd_exporter::series::SeriesVec;

fn config(monitor: bool, pps: bool, geo: bool) -> MetricsConfig {
    MetricsConfig {
        monitor_satellites: monitor,
        pps_histogram: pps,
        pps_bucket_size: 250,
        pps_bucket_count: 40,
        pps_time1: 0.0f64.to_bits(),
        geo_offset: geo,
        geo_lat: 51.5f64.to_bits(),
        geo_lon: (-0.12f64).to_bits(),
        geo_bucket_size: 0.5f64.to_bits(),
        geo_bucket_count: 40,
    }
}

fn bits(x: f64) -> Option<u64> {
    Some(x.to_bits())
}

fn tpv() -> Tpv {
    Tpv {
        device: None, mode: None, status: None, lat: None, lon: None, altHAE: None, altMSL: None,
        climb: None, speed: None, track: None, magtrack: None, magvar: None, leapseconds: None,
        ept: None, epx: None, epy: None, epv: None, eps: None, epc: None, epd: None, eph: None,
        sep: None, geoidSep: None, ecefx: None, ecefy: None, ecefz: None, ecefvx: None,
        ecefvy: None, ecefvz: None, ecefpAcc: None, ecefvAcc: None, velN: None, velE: None,
        velD: None, relN: None, relE: None, relD: None, depth: None, dgpsAge: None, dgpsSta: None,
    }
}

fn sky(satellites: Option<Vec<Satellite>>) -> Sky {
    Sky {
        device: None, gdop: None, hdop: None, pdop: None, tdop: None, vdop: None, xdop: None,
        ydop: None, nSat: None, uSat: None, prRes: None, qual: None, satellites,
    }
}

fn sat(prn: i64, used: Option<bool>, ss: Option<f64>) -> Satellite {
    Satellite {
        PRN: Some(prn), az: bits(180.0), el: bits(45.0), ss: ss.map(f64::to_bits), used,
        gnssid: Some(0), svid: None, sigid: None, freqid: None, health: None,
    }
}

fn pps(device: Option<&str>, clock_nsec: Option<f64>) -> Pps {
    Pps {
        device: device.map(str::to_string), real_sec: bits(1.0), real_nsec: bits(2.0),
        clock_sec: bits(3.0), clock_nsec: clock_nsec.map(f64::to_bits), precision: bits(-20.0),
        shm: None, q_err: None,
    }
}

fn keys(v: &SeriesVec) -> Vec<SatKey> {
    let mut out: Vec<SatKey> = Vec::new();
    for w in v.writes() {
        if !out.contains(&w.key) {
            out.push(w.key);
        }
    }
    out
}

#[test]
fn new_store_is_zero() {
    let m = Metrics::new(config(true, false, false));
    assert_eq!(m.tpv.lat, Reading::Whole(0));
    assert_eq!(m.sky.sat_seen, Reading::Whole(0));
    assert_eq!(m.osc.running, Reading::Whole(0));
    assert!(m.satellites.is_some());
    assert!(m.version_info.rows().is_empty());
    let m = Metrics::new(config(false, false, false));
    assert!(m.satellites.is_none());
}

#[test]
fn tpv_sets_present_readings_only() {
    let mut m = Metrics::new(config(false, false, false));
    let mut t = tpv();
    t.lat = bits(51.5);
    t.mode = bits(3.0);
    let obs = m.process(&GpsdMessage::TPV(Box::new(t)));
    assert!(obs.is_none());
    assert_eq!(m.tpv.lat, Reading::Bits(51.5f64.to_bits()));
    assert_eq!(m.tpv.mode, Reading::Bits(3.0f64.to_bits()));
    assert_eq!(m.tpv.lon, Reading::Whole(0));

    let mut t = tpv();
    t.lon = bits(-0.5);
    m.process(&GpsdMessage::TPV(Box::new(t)));
    assert_eq!(m.tpv.lat, Reading::Bits(51.5f64.to_bits()));
    assert_eq!(m.tpv.lon, Reading::Bits((-0.5f64).to_bits()));
}

#[test]
fn tpv_geo_observation() {
    let mut m = Metrics::new(config(false, false, true));
    let mut t = tpv();
    t.lat = bits(51.5);
    let obs = m.process(&GpsdMessage::TPV(Box::new(t)));
    assert!(obs.is_none());
    let mut t = tpv();
    t.lat = bits(51.5);
    t.lon = bits(-0.1);
    match m.process(&GpsdMessage::TPV(Box::new(t))) {
        Some(Observation::GeoFix { lat, lon }) => {
            assert_eq!(f64::from_bits(lat), 51.5);
            assert_eq!(f64::from_bits(lon), -0.1);
        }
        _ => panic!("expected a geo observation"),
    }
}

#[test]
fn sky_counts_and_series() {
    let mut m = Metrics::new(config(true, false, false));
    let mut s = sky(Some(vec![
        sat(1, Some(true), Some(40.0)),
        sat(2, Some(false), None),
        sat(3, None, Some(20.0)),
    ]));
    s.hdop = bits(0.9);
    assert!(m.process(&GpsdMessage::SKY(Box::new(s))).is_none());
    assert_eq!(m.sky.sat_seen, Reading::Whole(3));
    assert_eq!(m.sky.sat_used, Reading::Whole(1));
    assert_eq!(m.sky.hdop, Reading::Bits(0.9f64.to_bits()));
    let vecs = m.satellites.as_ref().unwrap();
    assert_eq!(keys(&vecs.used).len(), 3);
    assert_eq!(keys(&vecs.ss).len(), 2);
    let used: Vec<u64> = vecs
        .used
        .writes()
        .iter()
        .map(|w| match w.value {
            Reading::Whole(n) => n,
            Reading::Bits(_) => panic!("flag expected"),
        })
        .collect();
    assert_eq!(used, vec![1, 0, 0]);

    // A later view replaces the per-satellite series.
    let s = sky(Some(vec![sat(7, Some(true), Some(33.0))]));
    m.process(&GpsdMessage::SKY(Box::new(s)));
    let vecs = m.satellites.as_ref().unwrap();
    assert_eq!(keys(&vecs.used), vec![SatKey { prn: Some(7), svid: 7, gnssid: 0, used: true }]);
    assert_eq!(m.sky.sat_seen, Reading::Whole(1));

    // A view without a list keeps counts and series.
    m.process(&GpsdMessage::SKY(Box::new(sky(None))));
    assert_eq!(m.sky.sat_seen, Reading::Whole(1));
    assert_eq!(keys(&m.satellites.as_ref().unwrap().used).len(), 1);
}

#[test]
fn sky_without_monitoring_counts_only() {
    let mut m = Metrics::new(config(false, false, false));
    let s = sky(Some(vec![sat(1, Some(true), Some(40.0)), sat(2, Some(true), None)]));
    m.process(&GpsdMessage::SKY(Box::new(s)));
    assert_eq!(m.sky.sat_seen, Reading::Whole(2));
    assert_eq!(m.sky.sat_used, Reading::Whole(2));
    assert!(m.satellites.is_none());
}

#[test]
fn pps_observation_and_gauges() {
    let mut m = Metrics::new(config(false, true, false));
    match m.process(&GpsdMessage::PPS(pps(None, Some(123.0)))) {
        Some(Observation::PpsOffset { device, clock_nsec }) => {
            assert_eq!(device, "unknown");
            assert_eq!(f64::from_bits(clock_nsec), 123.0);
        }
        _ => panic!("expected a PPS observation"),
    }
    assert_eq!(m.pps.clock_nsec, Reading::Bits(123.0f64.to_bits()));
    assert_eq!(m.pps.precision, Reading::Bits((-20.0f64).to_bits()));
    match m.process(&GpsdMessage::PPS(pps(Some("/dev/pps0"), Some(5.0)))) {
        Some(Observation::PpsOffset { device, .. }) => assert_eq!(device, "/dev/pps0"),
        _ => panic!("expected a PPS observation"),
    }
    assert!(m.process(&GpsdMessage::PPS(pps(None, None))).is_none());

    let mut off = Metrics::new(config(false, false, false));
    assert!(off.process(&GpsdMessage::PPS(pps(None, Some(1.0)))).is_none());
    assert_eq!(off.pps.clock_nsec, Reading::Bits(1.0f64.to_bits()));
}

#[test]
fn gst_toff_osc_gauges() {
    let mut m = Metrics::new(config(false, false, false));
    let g = Gst {
        device: None, rms: bits(1.5), major: None, minor: None, orient: None, lat: bits(2.0),
        lon: None, alt: None,
    };
    m.process(&GpsdMessage::GST(g));
    assert_eq!(m.gst.rms, Reading::Bits(1.5f64.to_bits()));
    assert_eq!(m.gst.lat, Reading::Bits(2.0f64.to_bits()));
    assert_eq!(m.gst.alt, Reading::Whole(0));

    let t = Toff { device: None, real_sec: bits(10.0), real_nsec: None, clock_sec: None, clock_nsec: bits(4.0) };
    m.process(&GpsdMessage::TOFF(t));
    assert_eq!(m.toff.real_sec, Reading::Bits(10.0f64.to_bits()));
    assert_eq!(m.toff.clock_nsec, Reading::Bits(4.0f64.to_bits()));

    let o = Osc { device: None, running: Some(true), reference: Some(false), disciplined: None, delta: bits(7.0) };
    m.process(&GpsdMessage::OSC(o));
    assert_eq!(m.osc.running, Reading::Whole(1));
    assert_eq!(m.osc.reference, Reading::Whole(0));
    assert_eq!(m.osc.disciplined, Reading::Whole(0));
    assert_eq!(m.osc.delta, Reading::Bits(7.0f64.to_bits()));
    let o = Osc { device: None, running: Some(false), reference: None, disciplined: Some(true), delta: None };
    m.process(&GpsdMessage::OSC(o));
    assert_eq!(m.osc.running, Reading::Whole(0));
    assert_eq!(m.osc.disciplined, Reading::Whole(1));
    assert_eq!(m.osc.delta, Reading::Bits(7.0f64.to_bits()));
}

#[test]
fn version_and_devices_rows() {
    let mut m = Metrics::new(config(false, false, false));
    let v = Version { release: Some("3.25".to_string()), rev: None, proto_major: Some(3), proto_minor: Some(15) };
    m.process(&GpsdMessage::VERSION(v));
    let v = Version { release: Some("3.25".to_string()), rev: None, proto_major: Some(3), proto_minor: Some(15) };
    m.process(&GpsdMessage::VERSION(v));
    assert_eq!(m.version_info.rows(), &vec![vec!["3.25".to_string(), "unknown".to_string(), "3".to_string(), "15".to_string()]]);

    let dev = |p: &str| Device {
        path: Some(p.to_string()), driver: None, subtype: None, subtype1: None, activated: None,
        flags: None, native: None, bps: Some("9600".to_string()), parity: None, stopbits: None,
        cycle: None, mincycle: None,
    };
    m.process(&GpsdMessage::DEVICES(Devices { devices: vec![dev("/dev/a"), dev("/dev/b"), dev("/dev/a")] }));
    assert_eq!(m.devices_info.rows().len(), 2);
    assert_eq!(m.devices_info.rows()[0][0], "/dev/a");
    assert_eq!(m.devices_info.rows()[1][0], "/dev/b");
    assert_eq!(m.devices_info.rows()[1][7], "9600");
    assert_eq!(m.devices_info.rows()[1][1], "Unknown");
}

#[test]
fn watch_changes_nothing() {
    let mut m = Metrics::new(config(true, true, true));
    assert!(m.process(&GpsdMessage::WATCH(Watch {})).is_none());
    assert_eq!(m.tpv.lat, Reading::Whole(0));
    assert!(m.version_info.rows().is_empty());
}

#[test]
fn same_report_twice_same_store() {
    let mut once = Metrics::new(config(true, false, false));
    let mut twice = Metrics::new(config(true, false, false));
    let make = || sky(Some(vec![sat(1, Some(true), Some(40.0)), sat(2, None, Some(12.0))]));
    once.process(&GpsdMessage::SKY(Box::new(make())));
    twice.process(&GpsdMessage::SKY(Box::new(make())));
    twice.process(&GpsdMessage::SKY(Box::new(make())));
    assert_eq!(once.sky.sat_seen, twice.sky.sat_seen);
    assert_eq!(once.sky.sat_used, twice.sky.sat_used);
    let a = once.satellites.as_ref().unwrap();
    let b = twice.satellites.as_ref().unwrap();
    assert_eq!(keys(&a.used), keys(&b.used));
    assert_eq!(keys(&a.ss), keys(&b.ss));
}

#[test]
fn reports_of_different_classes_commute() {
    let mut a = Metrics::new(config(false, false, false));
    let mut b = Metrics::new(config(false, false, false));
    let mut t = tpv();
    t.lat = bits(1.0);
    let g = || Gst { device: None, rms: bits(3.0), major: None, minor: None, orient: None, lat: bits(4.0), lon: None, alt: None };
    a.process(&GpsdMessage::TPV(Box::new(t)));
    a.process(&GpsdMessage::GST(g()));
    let mut t = tpv();
    t.lat = bits(1.0);
    b.process(&GpsdMessage::GST(g()));
    b.process(&GpsdMessage::TPV(Box::new(t)));
    assert_eq!(a.tpv.lat, b.tpv.lat);
    assert_eq!(a.gst.lat, b.gst.lat);
    assert_eq!(a.gst.rms, b.gst.rms);
}
