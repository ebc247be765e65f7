//! What each exported metric shows, stated against the report members and
//! metric and label names: every gauge takes the report member of its own
//! name, every labelled series takes the reading its family is named for,
//! and every label value sits under the label of its own name.

use vstd::prelude::*;
use crate::gpsd::{GpsdMessage, Tpv, Sky, Satellite, Gst, Toff, Pps, Osc, Version, Device};
use crate::gauges::{Reading, count_used};
use crate::decimal::{signed_decimal, decimal};
use crate::labels::{SatKey, sat_key, sat_labels, version_labels, device_labels};
use crate::metrics::{device_rows, Metrics, MetricsModel, MetricsConfig, SatelliteModel, Observation, observation_of, gauge_row_spec, sky_series,
    satellite_family_spec, sat_label_names, labelled_family_spec};

verus! {

/// What a gauge shows after a reading that may be absent: the reading, or
/// what it showed before.
pub open spec fn shown(before: Reading, reading: Option<u64>) -> Reading {
    match reading {
        Some(bits) => Reading::Bits(bits),
        None => before,
    }
}

/// What a flag gauge shows after a flag that may be absent: 1 for true, 0
/// for false, or what it showed before.
pub open spec fn shown_flag(before: Reading, flag: Option<bool>) -> Reading {
    match flag {
        Some(true) => Reading::Whole(1),
        Some(false) => Reading::Whole(0),
        None => before,
    }
}

/// The number of used satellites is the length of the list of those that say `used: true`.
pub proof fn lemma_count_used_is_filter(sats: Seq<Satellite>)
    ensures
        count_used(sats) == sats.filter(|x: Satellite| x.used == Some(true)).len(),
    decreases sats.len(),
{
    reveal_with_fuel(Seq::<Satellite>::filter, 1);
    if sats.len() > 0 {
        lemma_count_used_is_filter(sats.drop_last());
    }
}

/// A time-position-velocity report sets each exported gauge from the report member of the
/// same name, keeps the gauges whose member is absent, and leaves every
/// other exported gauge as it was.
pub proof fn lemma_tpv_gauges_follow_names(before: Metrics, after: Metrics, r: Tpv)
    requires
        after@ == before@.after(GpsdMessage::TPV(Box::new(r))),
    ensures
        gauge_row_spec(after)[0] == ("gpsd_lat"@, shown(gauge_row_spec(before)[0].1, r.lat)),
        gauge_row_spec(after)[1] == ("gpsd_long"@, shown(gauge_row_spec(before)[1].1, r.lon)),
        gauge_row_spec(after)[2] == ("gpsd_altHAE"@, shown(gauge_row_spec(before)[2].1, r.altHAE)),
        gauge_row_spec(after)[3] == ("gpsd_altMSL"@, shown(gauge_row_spec(before)[3].1, r.altMSL)),
        gauge_row_spec(after)[4] == ("gpsd_mode"@, shown(gauge_row_spec(before)[4].1, r.mode)),
        gauge_row_spec(after)[5] == ("gpsd_status"@, shown(gauge_row_spec(before)[5].1, r.status)),
        gauge_row_spec(after)[6] == ("gpsd_leapseconds"@, shown(gauge_row_spec(before)[6].1, r.leapseconds)),
        gauge_row_spec(after)[7] == ("gpsd_magvar"@, shown(gauge_row_spec(before)[7].1, r.magvar)),
        gauge_row_spec(after)[8] == ("gpsd_ept"@, shown(gauge_row_spec(before)[8].1, r.ept)),
        gauge_row_spec(after)[9] == ("gpsd_epx"@, shown(gauge_row_spec(before)[9].1, r.epx)),
        gauge_row_spec(after)[10] == ("gpsd_epy"@, shown(gauge_row_spec(before)[10].1, r.epy)),
        gauge_row_spec(after)[11] == ("gpsd_epv"@, shown(gauge_row_spec(before)[11].1, r.epv)),
        gauge_row_spec(after)[12] == ("gpsd_eps"@, shown(gauge_row_spec(before)[12].1, r.eps)),
        gauge_row_spec(after)[13] == ("gpsd_epc"@, shown(gauge_row_spec(before)[13].1, r.epc)),
        gauge_row_spec(after)[14] == ("gpsd_epd"@, shown(gauge_row_spec(before)[14].1, r.epd)),
        gauge_row_spec(after)[15] == ("gpsd_eph"@, shown(gauge_row_spec(before)[15].1, r.eph)),
        gauge_row_spec(after)[16] == ("gpsd_sep"@, shown(gauge_row_spec(before)[16].1, r.sep)),
        gauge_row_spec(after)[17] == ("gpsd_geoidSep"@, shown(gauge_row_spec(before)[17].1, r.geoidSep)),
        gauge_row_spec(after)[18] == ("gpsd_ecefx"@, shown(gauge_row_spec(before)[18].1, r.ecefx)),
        gauge_row_spec(after)[19] == ("gpsd_ecefy"@, shown(gauge_row_spec(before)[19].1, r.ecefy)),
        gauge_row_spec(after)[20] == ("gpsd_ecefz"@, shown(gauge_row_spec(before)[20].1, r.ecefz)),
        gauge_row_spec(after)[21] == ("gpsd_ecefvx"@, shown(gauge_row_spec(before)[21].1, r.ecefvx)),
        gauge_row_spec(after)[22] == ("gpsd_ecefvy"@, shown(gauge_row_spec(before)[22].1, r.ecefvy)),
        gauge_row_spec(after)[23] == ("gpsd_ecefvz"@, shown(gauge_row_spec(before)[23].1, r.ecefvz)),
        gauge_row_spec(after)[24] == ("gpsd_ecefpAcc"@, shown(gauge_row_spec(before)[24].1, r.ecefpAcc)),
        gauge_row_spec(after)[25] == ("gpsd_ecefvAcc"@, shown(gauge_row_spec(before)[25].1, r.ecefvAcc)),
        gauge_row_spec(after)[26] == ("gpsd_velN"@, shown(gauge_row_spec(before)[26].1, r.velN)),
        gauge_row_spec(after)[27] == ("gpsd_velE"@, shown(gauge_row_spec(before)[27].1, r.velE)),
        gauge_row_spec(after)[28] == ("gpsd_velD"@, shown(gauge_row_spec(before)[28].1, r.velD)),
        gauge_row_spec(after)[29] == ("gpsd_speed"@, shown(gauge_row_spec(before)[29].1, r.speed)),
        gauge_row_spec(after)[30] == ("gpsd_track"@, shown(gauge_row_spec(before)[30].1, r.track)),
        gauge_row_spec(after)[31] == ("gpsd_magtrack"@, shown(gauge_row_spec(before)[31].1, r.magtrack)),
        gauge_row_spec(after)[32] == ("gpsd_climb"@, shown(gauge_row_spec(before)[32].1, r.climb)),
        gauge_row_spec(after)[33] == ("gpsd_depth"@, shown(gauge_row_spec(before)[33].1, r.depth)),
        gauge_row_spec(after)[34] == ("gpsd_dgpsAge"@, shown(gauge_row_spec(before)[34].1, r.dgpsAge)),
        gauge_row_spec(after)[35] == ("gpsd_dgpsSta"@, shown(gauge_row_spec(before)[35].1, r.dgpsSta)),
        gauge_row_spec(after)[36] == ("gpsd_relN"@, shown(gauge_row_spec(before)[36].1, r.relN)),
        gauge_row_spec(after)[37] == ("gpsd_relE"@, shown(gauge_row_spec(before)[37].1, r.relE)),
        gauge_row_spec(after)[38] == ("gpsd_relD"@, shown(gauge_row_spec(before)[38].1, r.relD)),
        forall|k: int| 0 <= k < 73 && !(0 <= k < 39) ==> #[trigger] gauge_row_spec(after)[k] == gauge_row_spec(before)[k],
{
}

/// A sky view report sets each exported gauge from the report member of the
/// same name, keeps the gauges whose member is absent, and leaves every
/// other exported gauge as it was.
pub proof fn lemma_sky_gauges_follow_names(before: Metrics, after: Metrics, r: Sky)
    requires
        after@ == before@.after(GpsdMessage::SKY(Box::new(r))),
    ensures
        gauge_row_spec(after)[39] == ("gpsd_gdop"@, shown(gauge_row_spec(before)[39].1, r.gdop)),
        gauge_row_spec(after)[40] == ("gpsd_hdop"@, shown(gauge_row_spec(before)[40].1, r.hdop)),
        gauge_row_spec(after)[41] == ("gpsd_pdop"@, shown(gauge_row_spec(before)[41].1, r.pdop)),
        gauge_row_spec(after)[42] == ("gpsd_tdop"@, shown(gauge_row_spec(before)[42].1, r.tdop)),
        gauge_row_spec(after)[43] == ("gpsd_vdop"@, shown(gauge_row_spec(before)[43].1, r.vdop)),
        gauge_row_spec(after)[44] == ("gpsd_xdop"@, shown(gauge_row_spec(before)[44].1, r.xdop)),
        gauge_row_spec(after)[45] == ("gpsd_ydop"@, shown(gauge_row_spec(before)[45].1, r.ydop)),
        gauge_row_spec(after)[46] == ("gpsd_nSat"@, shown(gauge_row_spec(before)[46].1, r.nSat)),
        gauge_row_spec(after)[47] == ("gpsd_uSat"@, shown(gauge_row_spec(before)[47].1, r.uSat)),
        gauge_row_spec(after)[48] == ("gpsd_prRes"@, shown(gauge_row_spec(before)[48].1, r.prRes)),
        gauge_row_spec(after)[49] == ("gpsd_qual"@, shown(gauge_row_spec(before)[49].1, r.qual)),
        gauge_row_spec(after)[50] == ("gpsd_sat_used"@, match r.satellites { Some(l) => Reading::Whole(l@.filter(|x: Satellite| x.used == Some(true)).len() as u64), None => gauge_row_spec(before)[50].1 }),
        gauge_row_spec(after)[51] == ("gpsd_sat_seen"@, match r.satellites { Some(l) => Reading::Whole(l@.len() as u64), None => gauge_row_spec(before)[51].1 }),
        forall|k: int| 0 <= k < 73 && !(39 <= k < 52) ==> #[trigger] gauge_row_spec(after)[k] == gauge_row_spec(before)[k],
{
    if let Some(l) = r.satellites {
        lemma_count_used_is_filter(l@);
    }
}

/// A pseudorange noise report sets each exported gauge from the report member of the
/// same name, keeps the gauges whose member is absent, and leaves every
/// other exported gauge as it was.
pub proof fn lemma_gst_gauges_follow_names(before: Metrics, after: Metrics, r: Gst)
    requires
        after@ == before@.after(GpsdMessage::GST(r)),
    ensures
        gauge_row_spec(after)[52] == ("gpsd_gst_rms"@, shown(gauge_row_spec(before)[52].1, r.rms)),
        gauge_row_spec(after)[53] == ("gpsd_gst_major"@, shown(gauge_row_spec(before)[53].1, r.major)),
        gauge_row_spec(after)[54] == ("gpsd_gst_minor"@, shown(gauge_row_spec(before)[54].1, r.minor)),
        gauge_row_spec(after)[55] == ("gpsd_gst_orient"@, shown(gauge_row_spec(before)[55].1, r.orient)),
        gauge_row_spec(after)[56] == ("gpsd_gst_lat"@, shown(gauge_row_spec(before)[56].1, r.lat)),
        gauge_row_spec(after)[57] == ("gpsd_gst_lon"@, shown(gauge_row_spec(before)[57].1, r.lon)),
        gauge_row_spec(after)[58] == ("gpsd_gst_alt"@, shown(gauge_row_spec(before)[58].1, r.alt)),
        forall|k: int| 0 <= k < 73 && !(52 <= k < 59) ==> #[trigger] gauge_row_spec(after)[k] == gauge_row_spec(before)[k],
{
}

/// A time offset report sets each exported gauge from the report member of the
/// same name, keeps the gauges whose member is absent, and leaves every
/// other exported gauge as it was.
pub proof fn lemma_toff_gauges_follow_names(before: Metrics, after: Metrics, r: Toff)
    requires
        after@ == before@.after(GpsdMessage::TOFF(r)),
    ensures
        gauge_row_spec(after)[59] == ("gpsd_toff_real_sec"@, shown(gauge_row_spec(before)[59].1, r.real_sec)),
        gauge_row_spec(after)[60] == ("gpsd_toff_real_nsec"@, shown(gauge_row_spec(before)[60].1, r.real_nsec)),
        gauge_row_spec(after)[61] == ("gpsd_toff_clock_sec"@, shown(gauge_row_spec(before)[61].1, r.clock_sec)),
        gauge_row_spec(after)[62] == ("gpsd_toff_clock_nsec"@, shown(gauge_row_spec(before)[62].1, r.clock_nsec)),
        forall|k: int| 0 <= k < 73 && !(59 <= k < 63) ==> #[trigger] gauge_row_spec(after)[k] == gauge_row_spec(before)[k],
{
}

/// A pulse-per-second report sets each exported gauge from the report member of the
/// same name, keeps the gauges whose member is absent, and leaves every
/// other exported gauge as it was.
pub proof fn lemma_pps_gauges_follow_names(before: Metrics, after: Metrics, r: Pps)
    requires
        after@ == before@.after(GpsdMessage::PPS(r)),
    ensures
        gauge_row_spec(after)[63] == ("gpsd_pps_real_sec"@, shown(gauge_row_spec(before)[63].1, r.real_sec)),
        gauge_row_spec(after)[64] == ("gpsd_pps_real_nsec"@, shown(gauge_row_spec(before)[64].1, r.real_nsec)),
        gauge_row_spec(after)[65] == ("gpsd_pps_clock_sec"@, shown(gauge_row_spec(before)[65].1, r.clock_sec)),
        gauge_row_spec(after)[66] == ("gpsd_pps_clock_nsec"@, shown(gauge_row_spec(before)[66].1, r.clock_nsec)),
        gauge_row_spec(after)[67] == ("gpsd_pps_precision"@, shown(gauge_row_spec(before)[67].1, r.precision)),
        gauge_row_spec(after)[68] == ("gpsd_pps_qErr"@, shown(gauge_row_spec(before)[68].1, r.q_err)),
        forall|k: int| 0 <= k < 73 && !(63 <= k < 69) ==> #[trigger] gauge_row_spec(after)[k] == gauge_row_spec(before)[k],
{
}

/// A oscillator report sets each exported gauge from the report member of the
/// same name, keeps the gauges whose member is absent, and leaves every
/// other exported gauge as it was.
pub proof fn lemma_osc_gauges_follow_names(before: Metrics, after: Metrics, r: Osc)
    requires
        after@ == before@.after(GpsdMessage::OSC(r)),
    ensures
        gauge_row_spec(after)[69] == ("gpsd_osc_running"@, shown_flag(gauge_row_spec(before)[69].1, r.running)),
        gauge_row_spec(after)[70] == ("gpsd_osc_reference"@, shown_flag(gauge_row_spec(before)[70].1, r.reference)),
        gauge_row_spec(after)[71] == ("gpsd_osc_disciplined"@, shown_flag(gauge_row_spec(before)[71].1, r.disciplined)),
        gauge_row_spec(after)[72] == ("gpsd_osc_delta"@, shown(gauge_row_spec(before)[72].1, r.delta)),
        forall|k: int| 0 <= k < 73 && !(69 <= k < 73) ==> #[trigger] gauge_row_spec(after)[k] == gauge_row_spec(before)[k],
{
}

/// The reading of a satellite that the per-satellite family at `f` is for:
/// signal strength, azimuth, elevation, health, signal ID and frequency ID
/// (position 3, the `used` family, carries a flag instead).
pub open spec fn family_reading(sat: Satellite, f: int) -> Option<u64> {
    if f == 0 {
        sat.ss
    } else if f == 1 {
        sat.az
    } else if f == 2 {
        sat.el
    } else if f == 4 {
        sat.health
    } else if f == 5 {
        sat.sigid
    } else {
        sat.freqid
    }
}

/// Whether no satellite after position `i` of the list has the same key and
/// a reading for the family at `f`, so that satellite `i` has the last word
/// on its series there.
pub open spec fn last_reading_of_key(sats: Seq<Satellite>, i: int, f: int) -> bool {
    forall|j: int| i < j < sats.len() && #[trigger] sat_key(sats[j]) == sat_key(sats[i])
        ==> family_reading(sats[j], f) is None
}

/// Whether no satellite after position `i` of the list has the same key.
pub open spec fn last_of_key(sats: Seq<Satellite>, i: int) -> bool {
    forall|j: int| i < j < sats.len() ==> #[trigger] sat_key(sats[j]) != sat_key(sats[i])
}

proof fn lemma_family_step(x: SatelliteModel, sat: Satellite, f: int)
    requires
        0 <= f < 7,
    ensures
        f != 3 ==> satellite_family_spec(x.record(sat))[f].1 == match family_reading(sat, f) {
            Some(b) => satellite_family_spec(x)[f].1.insert(sat_key(sat), Reading::Bits(b)),
            None => satellite_family_spec(x)[f].1,
        },
        f == 3 ==> satellite_family_spec(x.record(sat))[f].1 == satellite_family_spec(x)[f].1.insert(
            sat_key(sat),
            if sat.used == Some(true) { Reading::Whole(1) } else { Reading::Whole(0) },
        ),
{
}

proof fn lemma_family_value(sats: Seq<Satellite>, i: int, f: int)
    requires
        0 <= i < sats.len(),
        0 <= f < 7,
        f != 3,
        family_reading(sats[i], f) is Some,
        last_reading_of_key(sats, i, f),
    ensures
        satellite_family_spec(sky_series(sats))[f].1.dom().contains(sat_key(sats[i])),
        satellite_family_spec(sky_series(sats))[f].1[sat_key(sats[i])]
            == Reading::Bits(family_reading(sats[i], f)->0),
    decreases sats.len(),
{
    let prefix = sats.drop_last();
    let last = sats.last();
    lemma_family_step(sky_series(prefix), last, f);
    if i < sats.len() - 1 {
        assert(prefix[i] == sats[i]);
        assert forall|j: int| i < j < prefix.len() && #[trigger] sat_key(prefix[j]) == sat_key(prefix[i])
            implies family_reading(prefix[j], f) is None by {
            assert(prefix[j] == sats[j]);
        }
        lemma_family_value(prefix, i, f);
        let l = sats.len() - 1;
        assert(sats[l] == last);
        if sat_key(last) == sat_key(sats[i]) {
            assert(family_reading(sats[l], f) is None);
        }
    }
}

proof fn lemma_used_value(sats: Seq<Satellite>, i: int)
    requires
        0 <= i < sats.len(),
        last_of_key(sats, i),
    ensures
        satellite_family_spec(sky_series(sats))[3].1.dom().contains(sat_key(sats[i])),
        satellite_family_spec(sky_series(sats))[3].1[sat_key(sats[i])]
            == if sats[i].used == Some(true) { Reading::Whole(1) } else { Reading::Whole(0) },
    decreases sats.len(),
{
    let prefix = sats.drop_last();
    let last = sats.last();
    lemma_family_step(sky_series(prefix), last, 3);
    if i < sats.len() - 1 {
        assert(prefix[i] == sats[i]);
        assert forall|j: int| i < j < prefix.len() implies #[trigger] sat_key(prefix[j]) != sat_key(prefix[i]) by {
            assert(prefix[j] == sats[j]);
        }
        lemma_used_value(prefix, i);
        assert(sats[sats.len() - 1] == last);
    }
}

/// Every series of the `used` family shows 1 exactly when its `used` label says so.
proof fn lemma_used_values_match_keys(sats: Seq<Satellite>)
    ensures
        forall|k: SatKey| #[trigger] satellite_family_spec(sky_series(sats))[3].1.dom().contains(k) ==>
            satellite_family_spec(sky_series(sats))[3].1[k] == if k.used { Reading::Whole(1) } else { Reading::Whole(0) },
    decreases sats.len(),
{
    if sats.len() > 0 {
        let prefix = sats.drop_last();
        lemma_used_values_match_keys(prefix);
        lemma_family_step(sky_series(prefix), sats.last(), 3);
        lemma_sat_key_follows_report(sats.last());
    }
}

/// After a sky view with a satellite list, while satellites are monitored,
/// each per-satellite family holds, under the key of each satellite, that
/// satellite's own reading of what the family is named for: `gpsd_sat_ss`
/// the signal strength, `gpsd_sat_az` the azimuth, `gpsd_sat_el` the
/// elevation, `gpsd_health` the health, `gpsd_sat_sigid` the signal ID,
/// `gpsd_sat_freqid` the frequency ID (from the last satellite of that key
/// that has the reading), and `gpsd_used` shows 1 exactly for the series
/// whose `used` label is true.
pub proof fn lemma_satellite_series_follow_names(m: MetricsModel, r: Sky, i: int)
    requires
        m.config.monitor_satellites,
        m.satellites is Some,
        r.satellites is Some,
        0 <= i < r.satellites->0@.len(),
    ensures
        ({
            let sats = r.satellites->0@;
            let fams = satellite_family_spec(m.after(GpsdMessage::SKY(Box::new(r))).satellites->0);
            let k = sat_key(sats[i]);
            &&& fams[0].0 == "gpsd_sat_ss"@
            &&& fams[1].0 == "gpsd_sat_az"@
            &&& fams[2].0 == "gpsd_sat_el"@
            &&& fams[3].0 == "gpsd_used"@
            &&& fams[4].0 == "gpsd_health"@
            &&& fams[5].0 == "gpsd_sat_sigid"@
            &&& fams[6].0 == "gpsd_sat_freqid"@
            &&& (sats[i].ss is Some && last_reading_of_key(sats, i, 0) ==> fams[0].1[k] == Reading::Bits(sats[i].ss->0))
            &&& (sats[i].az is Some && last_reading_of_key(sats, i, 1) ==> fams[1].1[k] == Reading::Bits(sats[i].az->0))
            &&& (sats[i].el is Some && last_reading_of_key(sats, i, 2) ==> fams[2].1[k] == Reading::Bits(sats[i].el->0))
            &&& (sats[i].health is Some && last_reading_of_key(sats, i, 4) ==> fams[4].1[k] == Reading::Bits(sats[i].health->0))
            &&& (sats[i].sigid is Some && last_reading_of_key(sats, i, 5) ==> fams[5].1[k] == Reading::Bits(sats[i].sigid->0))
            &&& (sats[i].freqid is Some && last_reading_of_key(sats, i, 6) ==> fams[6].1[k] == Reading::Bits(sats[i].freqid->0))
            &&& fams[3].1.dom().contains(k)
            &&& fams[3].1[k] == if sats[i].used == Some(true) { Reading::Whole(1) } else { Reading::Whole(0) }
            &&& forall|key: SatKey| #[trigger] fams[3].1.dom().contains(key) ==>
                fams[3].1[key] == if key.used { Reading::Whole(1) } else { Reading::Whole(0) }
        }),
{
    let sats = r.satellites->0@;
    assert(m.after(GpsdMessage::SKY(Box::new(r))).satellites->0 == sky_series(sats));
    if sats[i].ss is Some && last_reading_of_key(sats, i, 0) { lemma_family_value(sats, i, 0); }
    if sats[i].az is Some && last_reading_of_key(sats, i, 1) { lemma_family_value(sats, i, 1); }
    if sats[i].el is Some && last_reading_of_key(sats, i, 2) { lemma_family_value(sats, i, 2); }
    if sats[i].health is Some && last_reading_of_key(sats, i, 4) { lemma_family_value(sats, i, 4); }
    if sats[i].sigid is Some && last_reading_of_key(sats, i, 5) { lemma_family_value(sats, i, 5); }
    if sats[i].freqid is Some && last_reading_of_key(sats, i, 6) { lemma_family_value(sats, i, 6); }
    lemma_used_values_match_keys(sats);
    lemma_used_in_dom(sats, i);
    lemma_sat_key_follows_report(sats[i]);
}

proof fn lemma_used_in_dom(sats: Seq<Satellite>, i: int)
    requires
        0 <= i < sats.len(),
    ensures
        satellite_family_spec(sky_series(sats))[3].1.dom().contains(sat_key(sats[i])),
    decreases sats.len(),
{
    let prefix = sats.drop_last();
    lemma_family_step(sky_series(prefix), sats.last(), 3);
    if i < sats.len() - 1 {
        assert(prefix[i] == sats[i]);
        lemma_used_in_dom(prefix, i);
    }
}

/// The key of a satellite's series reflects its report: the `PRN` as
/// reported, `svid` falling back to `PRN` and then 0, `gnssid` falling back to
/// 0, and `used` true exactly when the report says `used: true`; and the
/// label values under the label names `PRN`, `svid`, `gnssid`, `used` are
/// those numbers in decimal (`?` for a missing `PRN`) and `True` or `False`.
pub proof fn lemma_sat_key_follows_report(sat: Satellite)
    ensures
        sat_key(sat).prn == sat.PRN,
        sat_key(sat).svid == match sat.svid {
            Some(v) => v,
            None => match sat.PRN {
                Some(p) => p,
                None => 0,
            },
        },
        sat_key(sat).gnssid == match sat.gnssid {
            Some(g) => g,
            None => 0,
        },
        sat_key(sat).used <==> sat.used == Some(true),
        sat.used == Some(false) ==> !sat_key(sat).used,
        sat_label_names() == seq!["PRN"@, "svid"@, "gnssid"@, "used"@],
        sat_labels(sat_key(sat)).len() == 4,
        sat_labels(sat_key(sat))[0] == match sat.PRN {
            Some(p) => signed_decimal(p as int),
            None => seq!['?'],
        },
        sat_labels(sat_key(sat))[1] == signed_decimal(sat_key(sat).svid as int),
        sat_labels(sat_key(sat))[2] == signed_decimal(sat_key(sat).gnssid as int),
        sat_labels(sat_key(sat))[3] == if sat.used == Some(true) {
            seq!['T', 'r', 'u', 'e']
        } else {
            seq!['F', 'a', 'l', 's', 'e']
        },
{
}

/// The version row puts each member of the report under the label of the
/// same name: `release` and `rev` (`unknown` when absent), `proto_major` and
/// `proto_minor` in decimal (`0` when absent).
pub proof fn lemma_version_row_follows_names(config: MetricsConfig, v: Version)
    ensures
        labelled_family_spec(config)[0].0 == "gpsd_version_info"@,
        labelled_family_spec(config)[0].1 == seq!["release"@, "rev"@, "proto_major"@, "proto_minor"@],
        version_labels(v).len() == 4,
        version_labels(v)[0] == match v.release { Some(s) => s@, None => "unknown"@ },
        version_labels(v)[1] == match v.rev { Some(s) => s@, None => "unknown"@ },
        version_labels(v)[2] == match v.proto_major { Some(n) => decimal(n as nat), None => seq!['0'] },
        version_labels(v)[3] == match v.proto_minor { Some(n) => decimal(n as nat), None => seq!['0'] },
{
}

/// The device row puts each member of the device under the label of the
/// same name (`unknown` for a missing path, `Unknown` for any other missing
/// member).
pub proof fn lemma_device_row_follows_names(config: MetricsConfig, d: Device)
    ensures
        labelled_family_spec(config)[1].0 == "gpsd_devices_info"@,
        labelled_family_spec(config)[1].1 == seq![
            "device"@, "driver"@, "subtype"@, "subtype1"@, "activated"@, "flags"@, "native"@,
            "bps"@, "parity"@, "stopbits"@, "cycle"@, "mincycle"@,
        ],
        device_labels(d).len() == 12,
        device_labels(d)[0] == match d.path { Some(s) => s@, None => "unknown"@ },
        device_labels(d)[1] == match d.driver { Some(s) => s@, None => "Unknown"@ },
        device_labels(d)[2] == match d.subtype { Some(s) => s@, None => "Unknown"@ },
        device_labels(d)[3] == match d.subtype1 { Some(s) => s@, None => "Unknown"@ },
        device_labels(d)[4] == match d.activated { Some(s) => s@, None => "Unknown"@ },
        device_labels(d)[5] == match d.flags { Some(s) => s@, None => "Unknown"@ },
        device_labels(d)[6] == match d.native { Some(s) => s@, None => "Unknown"@ },
        device_labels(d)[7] == match d.bps { Some(s) => s@, None => "Unknown"@ },
        device_labels(d)[8] == match d.parity { Some(s) => s@, None => "Unknown"@ },
        device_labels(d)[9] == match d.stopbits { Some(s) => s@, None => "Unknown"@ },
        device_labels(d)[10] == match d.cycle { Some(s) => s@, None => "Unknown"@ },
        device_labels(d)[11] == match d.mincycle { Some(s) => s@, None => "Unknown"@ },
{
}


/// The PPS observation carries the report's own `clock_nsec` reading and
/// device (`unknown` when the report names none), and is due exactly when the
/// PPS histogram is on and the reading is present.
pub proof fn lemma_pps_observation_follows_report(config: MetricsConfig, p: Pps, obs: Option<Observation>)
    requires
        observation_of(config, GpsdMessage::PPS(p), obs),
    ensures
        obs is Some <==> (config.pps_histogram && p.clock_nsec is Some),
        obs matches Some(o) ==> (o matches Observation::PpsOffset { device, clock_nsec }
            && p.clock_nsec == Some(clock_nsec)
            && device@ == match p.device { Some(s) => s@, None => "unknown"@ }),
{
}

/// The geo observation carries the fix's own latitude and longitude, in
/// that order, and is due exactly when geo-offset tracking is on and both
/// are present.
pub proof fn lemma_geo_observation_follows_report(config: MetricsConfig, t: Tpv, obs: Option<Observation>)
    requires
        observation_of(config, GpsdMessage::TPV(Box::new(t)), obs),
    ensures
        obs is Some <==> (config.geo_offset && t.lat is Some && t.lon is Some),
        obs matches Some(o) ==> (o matches Observation::GeoFix { lat, lon }
            && t.lat == Some(lat) && t.lon == Some(lon)),
{
}

/// A VERSION report adds its own row, with each member under the label of
/// its name, and keeps every other row.
pub proof fn lemma_version_rows(m: MetricsModel, v: Version)
    ensures
        m.after(GpsdMessage::VERSION(v)).version_info.contains(seq![
            match v.release { Some(s) => s@, None => "unknown"@ },
            match v.rev { Some(s) => s@, None => "unknown"@ },
            match v.proto_major { Some(n) => decimal(n as nat), None => seq!['0'] },
            match v.proto_minor { Some(n) => decimal(n as nat), None => seq!['0'] },
        ]),
        forall|row: Seq<Seq<char>>| #[trigger] m.after(GpsdMessage::VERSION(v)).version_info.contains(row)
            ==> m.version_info.contains(row) || row == version_labels(v),
        m.version_info.subset_of(m.after(GpsdMessage::VERSION(v)).version_info),
        m.after(GpsdMessage::VERSION(v)).devices_info == m.devices_info,
{
    let row = seq![
        match v.release { Some(s) => s@, None => "unknown"@ },
        match v.rev { Some(s) => s@, None => "unknown"@ },
        match v.proto_major { Some(n) => decimal(n as nat), None => seq!['0'] },
        match v.proto_minor { Some(n) => decimal(n as nat), None => seq!['0'] },
    ];
    lemma_version_row_follows_names(m.config, v);
    assert(row =~= version_labels(v));
}

proof fn lemma_device_rows_members(devs: Seq<Device>)
    ensures
        forall|i: int| 0 <= i < devs.len() ==> #[trigger] device_rows(devs).contains(device_labels(devs[i])),
        forall|row: Seq<Seq<char>>| #[trigger] device_rows(devs).contains(row) ==>
            exists|i: int| 0 <= i < devs.len() && device_labels(devs[i]) == row,
    decreases devs.len(),
{
    if devs.len() > 0 {
        let prefix = devs.drop_last();
        lemma_device_rows_members(prefix);
        assert(device_rows(devs) == device_rows(prefix).insert(device_labels(devs.last())));
        assert forall|i: int| 0 <= i < devs.len() implies #[trigger] device_rows(devs).contains(device_labels(devs[i])) by {
            if i < devs.len() - 1 {
                assert(prefix[i] == devs[i]);
                assert(device_rows(prefix).contains(device_labels(prefix[i])));
            }
        }
        assert forall|row: Seq<Seq<char>>| #[trigger] device_rows(devs).contains(row) implies
            exists|i: int| 0 <= i < devs.len() && device_labels(devs[i]) == row by {
            if row == device_labels(devs.last()) {
                assert(device_labels(devs[devs.len() - 1]) == row);
            } else {
                assert(device_rows(prefix).contains(row));
                let i = choose|i: int| 0 <= i < prefix.len() && device_labels(prefix[i]) == row;
                assert(devs[i] == prefix[i]);
            }
        }
    }
}

/// A DEVICES report adds the row of every device it lists, and no row that
/// is not one of theirs, keeping every row there was.
pub proof fn lemma_device_rows(m: MetricsModel, d: crate::gpsd::Devices)
    ensures
        forall|i: int| 0 <= i < d.devices@.len() ==>
            #[trigger] m.after(GpsdMessage::DEVICES(d)).devices_info.contains(device_labels(d.devices@[i])),
        forall|row: Seq<Seq<char>>| #[trigger] m.after(GpsdMessage::DEVICES(d)).devices_info.contains(row) ==>
            m.devices_info.contains(row) || exists|i: int| 0 <= i < d.devices@.len() && device_labels(d.devices@[i]) == row,
        m.devices_info.subset_of(m.after(GpsdMessage::DEVICES(d)).devices_info),
        m.after(GpsdMessage::DEVICES(d)).version_info == m.version_info,
{
    lemma_device_rows_members(d.devices@);
}

} // verus!
