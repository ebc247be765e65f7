//! Properties of the metric store that hold across reports.

use vstd::prelude::*;
use crate::gpsd::{GpsdMessage, Satellite, Sky};
use crate::gpsd::{Version, Device};
use crate::labels::{SatKey, sat_key, sat_labels, version_labels, device_labels};
use crate::metrics::{MetricsModel, MetricsConfig, SatelliteModel, sky_series, labelled_family_spec};

verus! {

/// The class of a report, one number per class.
pub open spec fn class_of(msg: GpsdMessage) -> int {
    match msg {
        GpsdMessage::VERSION(_) => 0,
        GpsdMessage::DEVICES(_) => 1,
        GpsdMessage::WATCH(_) => 2,
        GpsdMessage::TPV(_) => 3,
        GpsdMessage::SKY(_) => 4,
        GpsdMessage::PPS(_) => 5,
        GpsdMessage::GST(_) => 6,
        GpsdMessage::TOFF(_) => 7,
        GpsdMessage::OSC(_) => 8,
    }
}

/// Processing the same report twice leaves the store as processing it once.
pub proof fn lemma_process_idempotent(m: MetricsModel, msg: GpsdMessage)
    ensures
        m.after(msg).after(msg) == m.after(msg),
{
    match msg {
        GpsdMessage::VERSION(v) => {
            assert(m.after(msg).after(msg).version_info =~= m.after(msg).version_info);
        },
        GpsdMessage::DEVICES(d) => {
            assert(m.after(msg).after(msg).devices_info =~= m.after(msg).devices_info);
        },
        _ => {},
    }
}

/// Reports of different classes set disjoint metrics, so their order does not matter.
pub proof fn lemma_distinct_classes_commute(m: MetricsModel, a: GpsdMessage, b: GpsdMessage)
    requires
        class_of(a) != class_of(b),
    ensures
        m.after(a).after(b) == m.after(b).after(a),
{
    match a {
        GpsdMessage::VERSION(_) => match b {
                GpsdMessage::VERSION(_) => {},
                GpsdMessage::DEVICES(_) => {},
                GpsdMessage::WATCH(_) => {},
                GpsdMessage::TPV(_) => {},
                GpsdMessage::SKY(_) => {},
                GpsdMessage::PPS(_) => {},
                GpsdMessage::GST(_) => {},
                GpsdMessage::TOFF(_) => {},
                GpsdMessage::OSC(_) => {},
        },
        GpsdMessage::DEVICES(_) => match b {
                GpsdMessage::VERSION(_) => {},
                GpsdMessage::DEVICES(_) => {},
                GpsdMessage::WATCH(_) => {},
                GpsdMessage::TPV(_) => {},
                GpsdMessage::SKY(_) => {},
                GpsdMessage::PPS(_) => {},
                GpsdMessage::GST(_) => {},
                GpsdMessage::TOFF(_) => {},
                GpsdMessage::OSC(_) => {},
        },
        GpsdMessage::WATCH(_) => match b {
                GpsdMessage::VERSION(_) => {},
                GpsdMessage::DEVICES(_) => {},
                GpsdMessage::WATCH(_) => {},
                GpsdMessage::TPV(_) => {},
                GpsdMessage::SKY(_) => {},
                GpsdMessage::PPS(_) => {},
                GpsdMessage::GST(_) => {},
                GpsdMessage::TOFF(_) => {},
                GpsdMessage::OSC(_) => {},
        },
        GpsdMessage::TPV(_) => match b {
                GpsdMessage::VERSION(_) => {},
                GpsdMessage::DEVICES(_) => {},
                GpsdMessage::WATCH(_) => {},
                GpsdMessage::TPV(_) => {},
                GpsdMessage::SKY(_) => {},
                GpsdMessage::PPS(_) => {},
                GpsdMessage::GST(_) => {},
                GpsdMessage::TOFF(_) => {},
                GpsdMessage::OSC(_) => {},
        },
        GpsdMessage::SKY(_) => match b {
                GpsdMessage::VERSION(_) => {},
                GpsdMessage::DEVICES(_) => {},
                GpsdMessage::WATCH(_) => {},
                GpsdMessage::TPV(_) => {},
                GpsdMessage::SKY(_) => {},
                GpsdMessage::PPS(_) => {},
                GpsdMessage::GST(_) => {},
                GpsdMessage::TOFF(_) => {},
                GpsdMessage::OSC(_) => {},
        },
        GpsdMessage::PPS(_) => match b {
                GpsdMessage::VERSION(_) => {},
                GpsdMessage::DEVICES(_) => {},
                GpsdMessage::WATCH(_) => {},
                GpsdMessage::TPV(_) => {},
                GpsdMessage::SKY(_) => {},
                GpsdMessage::PPS(_) => {},
                GpsdMessage::GST(_) => {},
                GpsdMessage::TOFF(_) => {},
                GpsdMessage::OSC(_) => {},
        },
        GpsdMessage::GST(_) => match b {
                GpsdMessage::VERSION(_) => {},
                GpsdMessage::DEVICES(_) => {},
                GpsdMessage::WATCH(_) => {},
                GpsdMessage::TPV(_) => {},
                GpsdMessage::SKY(_) => {},
                GpsdMessage::PPS(_) => {},
                GpsdMessage::GST(_) => {},
                GpsdMessage::TOFF(_) => {},
                GpsdMessage::OSC(_) => {},
        },
        GpsdMessage::TOFF(_) => match b {
                GpsdMessage::VERSION(_) => {},
                GpsdMessage::DEVICES(_) => {},
                GpsdMessage::WATCH(_) => {},
                GpsdMessage::TPV(_) => {},
                GpsdMessage::SKY(_) => {},
                GpsdMessage::PPS(_) => {},
                GpsdMessage::GST(_) => {},
                GpsdMessage::TOFF(_) => {},
                GpsdMessage::OSC(_) => {},
        },
        GpsdMessage::OSC(_) => match b {
                GpsdMessage::VERSION(_) => {},
                GpsdMessage::DEVICES(_) => {},
                GpsdMessage::WATCH(_) => {},
                GpsdMessage::TPV(_) => {},
                GpsdMessage::SKY(_) => {},
                GpsdMessage::PPS(_) => {},
                GpsdMessage::GST(_) => {},
                GpsdMessage::TOFF(_) => {},
                GpsdMessage::OSC(_) => {},
        },
    }
}

/// The per-satellite families exist exactly when satellites are monitored,
/// from start-up on and after every report.
pub proof fn lemma_satellite_families_follow_config(config: MetricsConfig, m: MetricsModel, msg: GpsdMessage)
    ensures
        MetricsModel::initial(config).satellites is Some <==> config.monitor_satellites,
        (m.satellites is Some <==> m.config.monitor_satellites) ==>
            (m.after(msg).satellites is Some <==> m.after(msg).config.monitor_satellites),
{
}

/// Reports never remove a row of the information families.
pub proof fn lemma_info_rows_kept(m: MetricsModel, msg: GpsdMessage)
    ensures
        m.version_info.subset_of(m.after(msg).version_info),
        m.devices_info.subset_of(m.after(msg).devices_info),
{
}

/// A sky view with a satellite list replaces the per-satellite families
/// whole: whatever report came before, they hold the series of the latest list.
pub proof fn lemma_latest_sky_view_wins(m: MetricsModel, earlier: GpsdMessage, sky: Sky)
    requires
        sky.satellites is Some,
    ensures
        m.after(earlier).after(GpsdMessage::SKY(Box::new(sky))).satellites
            == m.after(GpsdMessage::SKY(Box::new(sky))).satellites,
        m.config.monitor_satellites && m.satellites is Some ==> m.after(GpsdMessage::SKY(Box::new(sky))).satellites
            == Some(sky_series(sky.satellites.unwrap()@)),
{
}

/// Every label row the store exports has as many values as its family has
/// label names: version rows fit `gpsd_version_info`, device rows fit
/// `gpsd_devices_info`, and, when satellites are monitored, satellite rows
/// fit each of the seven per-satellite families.
pub proof fn lemma_label_rows_fit_families(config: MetricsConfig, v: Version, d: Device, k: SatKey)
    ensures
        labelled_family_spec(config)[0].1.len() == version_labels(v).len(),
        labelled_family_spec(config)[1].1.len() == device_labels(d).len(),
        config.monitor_satellites ==> forall|i: int| 2 <= i < 9 ==>
            (#[trigger] labelled_family_spec(config)[i]).1.len() == sat_labels(k).len(),
{
}

/// The keys of the satellites of a list.
pub open spec fn keys_of(sats: Seq<Satellite>) -> Set<SatKey> {
    Set::new(|k: SatKey| exists|i: int| 0 <= i < sats.len() && sat_key(sats[i]) == k)
}

/// After a sky view with a satellite list, the per-satellite families hold
/// the satellites of that list and no others: the `used` family has a series
/// for each of them, and every family's series belong to them.
pub proof fn lemma_sky_series_keys(sats: Seq<Satellite>)
    ensures
        sky_series(sats).used.dom() == keys_of(sats),
        sky_series(sats).ss.dom().subset_of(keys_of(sats)),
        sky_series(sats).az.dom().subset_of(keys_of(sats)),
        sky_series(sats).el.dom().subset_of(keys_of(sats)),
        sky_series(sats).health.dom().subset_of(keys_of(sats)),
        sky_series(sats).sigid.dom().subset_of(keys_of(sats)),
        sky_series(sats).freqid.dom().subset_of(keys_of(sats)),
    decreases sats.len(),
{
    if sats.len() == 0 {
        assert(sky_series(sats).used.dom() =~= keys_of(sats));
    } else {
        let prefix = sats.drop_last();
        lemma_sky_series_keys(prefix);
        let k = sat_key(sats.last());
        assert(keys_of(sats) =~= keys_of(prefix).insert(k)) by {
            assert forall|x: SatKey| keys_of(sats).contains(x) implies #[trigger] keys_of(prefix).insert(k).contains(x) by {
                let i = choose|i: int| 0 <= i < sats.len() && sat_key(sats[i]) == x;
                if i < sats.len() - 1 {
                    assert(prefix[i] == sats[i]);
                }
            }
            assert forall|x: SatKey| keys_of(prefix).insert(k).contains(x) implies #[trigger] keys_of(sats).contains(x) by {
                if x == k {
                    assert(sat_key(sats[sats.len() - 1]) == x);
                } else {
                    let i = choose|i: int| 0 <= i < prefix.len() && sat_key(prefix[i]) == x;
                    assert(sats[i] == prefix[i]);
                }
            }
        }
        assert(sky_series(sats).used.dom() =~= keys_of(sats));
    }
}

} // verus!
