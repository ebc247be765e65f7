use gpsd_exporter::gauges::Reading;
use gpsd_exporter::gpsd::{GpsdMessage, Tpv};
use gpsd_exporter::metrics::{
    gauge_rows, help_texts, info_rows, labelled_families, satellite_rows, Metrics, MetricsConfig,
};

fn config(monitor: bool, pps: bool, geo: bool) -> MetricsConfig {
    MetricsConfig {
        monitor_satellites: monitor,
        pps_histogram: pps,
        pps_bucket_size: 250,
        pps_bucket_count: 40,
        pps_time1: 0,
        geo_offset: geo,
        geo_lat: 0,
        geo_lon: 0,
        geo_bucket_size: 0.5f64.to_bits(),
        geo_bucket_count: 40,
    }
}

#[test]
fn gauge_rows_names_and_values() {
    let mut m = Metrics::new(config(false, false, false));
    let mut t = Tpv {
        device: None, mode: None, status: None, lat: None, lon: None, altHAE: None, altMSL: None,
        climb: None, speed: None, track: None, magtrack: None, magvar: None, leapseconds: None,
        ept: None, epx: None, epy: None, epv: None, eps: None, epc: None, epd: None, eph: None,
        sep: None, geoidSep: None, ecefx: None, ecefy: None, ecefz: None, ecefvx: None,
        ecefvy: None, ecefvz: None, ecefpAcc: None, ecefvAcc: None, velN: None, velE: None,
        velD: None, relN: None, relE: None, relD: None, depth: None, dgpsAge: None, dgpsSta: None,
    };
    t.lon = Some((-0.25f64).to_bits());
    m.process(&GpsdMessage::TPV(Box::new(t)));
    let rows = gauge_rows(&m);
    assert_eq!(rows.len(), 73);
    assert_eq!(rows[0], ("gpsd_lat", Reading::Whole(0)));
    assert_eq!(rows[1], ("gpsd_long", Reading::Bits((-0.25f64).to_bits())));
    assert_eq!(rows[39].0, "gpsd_gdop");
    assert_eq!(rows[51].0, "gpsd_sat_seen");
    assert_eq!(rows[52].0, "gpsd_gst_rms");
    assert_eq!(rows[59].0, "gpsd_toff_real_sec");
    assert_eq!(rows[63].0, "gpsd_pps_real_sec");
    assert_eq!(rows[68].0, "gpsd_pps_qErr");
    assert_eq!(rows[72].0, "gpsd_osc_delta");
    let mut names: Vec<&str> = rows.iter().map(|r| r.0).collect();
    names.sort();
    names.dedup();
    assert_eq!(names.len(), 73);
}

#[test]
fn every_metric_has_help() {
    let help = help_texts();
    assert_eq!(help.len(), 86);
    let m = Metrics::new(config(true, true, true));
    for (name, _) in gauge_rows(&m) {
        assert!(help.iter().any(|(n, h)| *n == name && !h.is_empty()));
    }
    for (name, _) in labelled_families(config(true, true, true)) {
        assert!(help.iter().any(|(n, _)| *n == name));
    }
    assert!(help.contains(&("gpsd_lat", "Latitude in degrees: +/- signifies North/South")));
}

#[test]
fn labelled_families_follow_config() {
    let f = labelled_families(config(false, false, false));
    assert_eq!(f.len(), 2);
    assert_eq!(f[0], ("gpsd_version_info", vec!["release", "rev", "proto_major", "proto_minor"]));
    assert_eq!(f[1].0, "gpsd_devices_info");
    assert_eq!(f[1].1.len(), 12);

    let f = labelled_families(config(true, true, true));
    assert_eq!(f.len(), 13);
    assert_eq!(f[2], ("gpsd_sat_ss", vec!["PRN", "svid", "gnssid", "used"]));
    assert_eq!(f[5].0, "gpsd_used");
    assert_eq!(f[9], ("gpsd_pps_histogram", vec!["device"]));
    assert_eq!(f[10], ("gpsd_geo_offset_m_histogram", vec![]));
    assert_eq!(f[12].0, "gpsd_geo_bearing_y_histogram");

    let f = labelled_families(config(false, true, false));
    assert_eq!(f.len(), 3);
    assert_eq!(f[2].0, "gpsd_pps_histogram");
}

#[test]
fn family_rows_by_name() {
    let m = Metrics::new(config(true, false, false));
    let names: Vec<&str> = satellite_rows(m.satellites.as_ref().unwrap()).iter().map(|r| r.0).collect();
    assert_eq!(
        names,
        vec!["gpsd_sat_ss", "gpsd_sat_az", "gpsd_sat_el", "gpsd_used", "gpsd_health", "gpsd_sat_sigid", "gpsd_sat_freqid"]
    );
    let names: Vec<&str> = info_rows(&m).iter().map(|r| r.0).collect();
    assert_eq!(names, vec!["gpsd_version_info", "gpsd_devices_info"]);
}
