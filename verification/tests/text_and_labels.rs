use gpsd_exporter::decimal::{i64_text, u64_text};
use gpsd_exporter::gpsd::{Device, Satellite, Version};
use gpsd_exporter::labels::{make_device_labels, make_version_labels, SatKey};

fn satellite() -> Satellite {
    Satellite {
        PRN: None,
        az: None,
        el: None,
        ss: None,
        used: None,
        gnssid: None,
        svid: None,
        sigid: None,
        freqid: None,
        health: None,
    }
}

#[test]
fn unsigned_decimal_text() {
    assert_eq!(u64_text(0), "0");
    assert_eq!(u64_text(7), "7");
    assert_eq!(u64_text(10), "10");
    assert_eq!(u64_text(1234567890), "1234567890");
    assert_eq!(u64_text(u64::MAX), u64::MAX.to_string());
}

#[test]
fn signed_decimal_text() {
    assert_eq!(i64_text(0), "0");
    assert_eq!(i64_text(-5), "-5");
    assert_eq!(i64_text(42), "42");
    assert_eq!(i64_text(-120), "-120");
    assert_eq!(i64_text(i64::MIN), "-9223372036854775808");
    assert_eq!(i64_text(i64::MAX), "9223372036854775807");
}

#[test]
fn satellite_key_fallbacks() {
    let mut sat = satellite();
    sat.PRN = Some(12);
    let k = SatKey::of(&sat);
    assert_eq!(k, SatKey { prn: Some(12), svid: 12, gnssid: 0, used: false });

    sat.svid = Some(3);
    sat.gnssid = Some(2);
    sat.used = Some(true);
    let k = SatKey::of(&sat);
    assert_eq!(k, SatKey { prn: Some(12), svid: 3, gnssid: 2, used: true });

    let k = SatKey::of(&satellite());
    assert_eq!(k, SatKey { prn: None, svid: 0, gnssid: 0, used: false });
}

#[test]
fn satellite_labels_text() {
    let k = SatKey { prn: Some(12), svid: 3, gnssid: 2, used: true };
    assert_eq!(k.labels(), vec!["12", "3", "2", "True"]);
    let k = SatKey { prn: None, svid: 0, gnssid: 0, used: false };
    assert_eq!(k.labels(), vec!["?", "0", "0", "False"]);
    let k = SatKey { prn: Some(-1), svid: -1, gnssid: 6, used: false };
    assert_eq!(k.labels(), vec!["-1", "-1", "6", "False"]);
}

#[test]
fn distinct_keys_distinct_labels() {
    let keys = [
        SatKey { prn: None, svid: 0, gnssid: 0, used: false },
        SatKey { prn: Some(0), svid: 0, gnssid: 0, used: false },
        SatKey { prn: Some(0), svid: 0, gnssid: 0, used: true },
        SatKey { prn: Some(1), svid: 10, gnssid: 0, used: false },
        SatKey { prn: Some(11), svid: 0, gnssid: 0, used: false },
    ];
    for (i, a) in keys.iter().enumerate() {
        for (j, b) in keys.iter().enumerate() {
            assert_eq!(i == j, a.labels() == b.labels());
        }
    }
}

#[test]
fn version_labels_defaults() {
    let v = Version { release: None, rev: None, proto_major: None, proto_minor: None };
    assert_eq!(make_version_labels(&v), vec!["unknown", "unknown", "0", "0"]);
    let v = Version {
        release: Some("3.25".to_string()),
        rev: Some("3.25-1".to_string()),
        proto_major: Some(3),
        proto_minor: Some(15),
    };
    assert_eq!(make_version_labels(&v), vec!["3.25", "3.25-1", "3", "15"]);
}

#[test]
fn device_labels_defaults() {
    let d = Device {
        path: None,
        driver: None,
        subtype: None,
        subtype1: None,
        activated: None,
        flags: None,
        native: None,
        bps: None,
        parity: None,
        stopbits: None,
        cycle: None,
        mincycle: None,
    };
    let mut expected = vec!["unknown"];
    expected.extend(std::iter::repeat("Unknown").take(11));
    assert_eq!(make_device_labels(&d), expected);

    let d = Device {
        path: Some("/dev/ttyACM0".to_string()),
        driver: Some("u-blox".to_string()),
        subtype: Some("SW 1.00".to_string()),
        subtype1: None,
        activated: Some("2024-01-01T00:00:00.000Z".to_string()),
        flags: Some("1".to_string()),
        native: Some("1".to_string()),
        bps: Some("9600".to_string()),
        parity: Some("N".to_string()),
        stopbits: Some("1".to_string()),
        cycle: Some("1.0".to_string()),
        mincycle: Some("0.25".to_string()),
    };
    assert_eq!(
        make_device_labels(&d),
        vec![
            "/dev/ttyACM0", "u-blox", "SW 1.00", "Unknown", "2024-01-01T00:00:00.000Z", "1", "1",
            "9600", "N", "1", "1.0", "0.25"
        ]
    );
}
