//! Label values of the labelled metrics: per-satellite series, the version
//! series and the device series.

use vstd::prelude::*;
use crate::decimal::{signed_decimal, decimal, i64_text, u64_text, lemma_decimal_shape,
    lemma_signed_decimal_injective, is_digit};
use crate::gpsd::{Satellite, Version, Device};

verus! {

/// What tells the series of one satellite apart: the values behind its
/// `PRN`, `svid`, `gnssid` and `used` labels.
#[derive(Clone, Copy, Debug, PartialEq, Eq, Structural)]
pub struct SatKey {
    pub prn: Option<i64>,
    pub svid: i64,
    pub gnssid: i64,
    pub used: bool,
}

/// The key of a satellite: `svid` falls back to `PRN` and then to 0,
/// `gnssid` to 0, and a satellite counts as used only when it says so.
pub open spec fn sat_key(sat: Satellite) -> SatKey {
    SatKey {
        prn: sat.PRN,
        svid: match sat.svid {
            Some(v) => v,
            None => match sat.PRN {
                Some(p) => p,
                None => 0,
            },
        },
        gnssid: match sat.gnssid {
            Some(g) => g,
            None => 0,
        },
        used: sat.used == Some(true),
    }
}

/// The text of the `PRN` label: the number, or `?` when the report has none.
pub open spec fn prn_text(prn: Option<i64>) -> Seq<char> {
    match prn {
        Some(n) => signed_decimal(n as int),
        None => seq!['?'],
    }
}

/// The text of the `used` label.
pub open spec fn used_text(used: bool) -> Seq<char> {
    if used {
        seq!['T', 'r', 'u', 'e']
    } else {
        seq!['F', 'a', 'l', 's', 'e']
    }
}

/// The label values of a satellite series, in the order `PRN`, `svid`, `gnssid`, `used`.
pub open spec fn sat_labels(k: SatKey) -> Seq<Seq<char>> {
    seq![prn_text(k.prn), signed_decimal(k.svid as int), signed_decimal(k.gnssid as int), used_text(k.used)]
}

/// The text of an optional string, or `default` when it is absent.
pub open spec fn text_or(o: Option<String>, default: Seq<char>) -> Seq<char> {
    match o {
        Some(s) => s@,
        None => default,
    }
}

/// The decimal text of an optional number, or `0` when it is absent.
pub open spec fn number_or_zero(o: Option<u32>) -> Seq<char> {
    match o {
        Some(n) => decimal(n as nat),
        None => seq!['0'],
    }
}

/// The label values of the version series: `release`, `rev`, `proto_major`, `proto_minor`.
pub open spec fn version_labels(v: Version) -> Seq<Seq<char>> {
    seq![
        text_or(v.release, "unknown"@),
        text_or(v.rev, "unknown"@),
        number_or_zero(v.proto_major),
        number_or_zero(v.proto_minor),
    ]
}

/// The label values of a device series, in the order `device`, `driver`,
/// `subtype`, `subtype1`, `activated`, `flags`, `native`, `bps`, `parity`,
/// `stopbits`, `cycle`, `mincycle`.
pub open spec fn device_labels(d: Device) -> Seq<Seq<char>> {
    seq![
        text_or(d.path, "unknown"@),
        text_or(d.driver, "Unknown"@),
        text_or(d.subtype, "Unknown"@),
        text_or(d.subtype1, "Unknown"@),
        text_or(d.activated, "Unknown"@),
        text_or(d.flags, "Unknown"@),
        text_or(d.native, "Unknown"@),
        text_or(d.bps, "Unknown"@),
        text_or(d.parity, "Unknown"@),
        text_or(d.stopbits, "Unknown"@),
        text_or(d.cycle, "Unknown"@),
        text_or(d.mincycle, "Unknown"@),
    ]
}

impl SatKey {
    /// The key under which the readings of `sat` are exported.
    pub fn of(sat: &Satellite) -> (k: SatKey)
        ensures
            k == sat_key(*sat),
    {
        let svid = match sat.svid {
            Some(v) => v,
            None => match sat.PRN {
                Some(p) => p,
                None => 0,
            },
        };
        let gnssid = match sat.gnssid {
            Some(g) => g,
            None => 0,
        };
        let used = match sat.used {
            Some(u) => u,
            None => false,
        };
        SatKey { prn: sat.PRN, svid, gnssid, used }
    }

    /// The label values of this key's series.
    pub fn labels(&self) -> (labels: Vec<String>)
        ensures
            labels.deep_view() == sat_labels(*self),
    {
        let prn = match self.prn {
            Some(n) => i64_text(n),
            None => {
                proof {
                    reveal_strlit("?");
                    assert("?"@ =~= seq!['?']);
                }
                String::from_str("?")
            },
        };
        let used = if self.used {
            proof {
                reveal_strlit("True");
                assert("True"@ =~= used_text(true));
            }
            String::from_str("True")
        } else {
            proof {
                reveal_strlit("False");
                assert("False"@ =~= used_text(false));
            }
            String::from_str("False")
        };
        let mut labels: Vec<String> = Vec::new();
        labels.push(prn);
        labels.push(i64_text(self.svid));
        labels.push(i64_text(self.gnssid));
        labels.push(used);
        assert(labels.deep_view() =~= sat_labels(*self));
        labels
    }
}

/// The text of `o`, or `default` when it is absent.
fn text_or_default(o: &Option<String>, default: &str) -> (s: String)
    ensures
        s@ == text_or(*o, default@),
{
    match o {
        Some(s) => s.clone(),
        None => String::from_str(default),
    }
}

/// The decimal text of `o`, or `0` when it is absent.
fn number_text_or_zero(o: Option<u32>) -> (s: String)
    ensures
        s@ == number_or_zero(o),
{
    match o {
        Some(n) => u64_text(n as u64),
        None => {
            proof {
                reveal_strlit("0");
                assert("0"@ =~= seq!['0']);
            }
            String::from_str("0")
        },
    }
}

/// The label values of the version series for `v`.
pub fn make_version_labels(v: &Version) -> (labels: Vec<String>)
    ensures
        labels.deep_view() == version_labels(*v),
{
    let mut labels: Vec<String> = Vec::new();
    labels.push(text_or_default(&v.release, "unknown"));
    labels.push(text_or_default(&v.rev, "unknown"));
    labels.push(number_text_or_zero(v.proto_major));
    labels.push(number_text_or_zero(v.proto_minor));
    assert(labels.deep_view() =~= version_labels(*v));
    labels
}

/// The label values of the device series for `d`.
pub fn make_device_labels(d: &Device) -> (labels: Vec<String>)
    ensures
        labels.deep_view() == device_labels(*d),
{
    let mut labels: Vec<String> = Vec::new();
    labels.push(text_or_default(&d.path, "unknown"));
    labels.push(text_or_default(&d.driver, "Unknown"));
    labels.push(text_or_default(&d.subtype, "Unknown"));
    labels.push(text_or_default(&d.subtype1, "Unknown"));
    labels.push(text_or_default(&d.activated, "Unknown"));
    labels.push(text_or_default(&d.flags, "Unknown"));
    labels.push(text_or_default(&d.native, "Unknown"));
    labels.push(text_or_default(&d.bps, "Unknown"));
    labels.push(text_or_default(&d.parity, "Unknown"));
    labels.push(text_or_default(&d.stopbits, "Unknown"));
    labels.push(text_or_default(&d.cycle, "Unknown"));
    labels.push(text_or_default(&d.mincycle, "Unknown"));
    assert(labels.deep_view() =~= device_labels(*d));
    labels
}

/// Distinct satellite keys have distinct label values, so one labelled
/// series stands for exactly one key.
pub proof fn lemma_sat_labels_injective(a: SatKey, b: SatKey)
    requires
        sat_labels(a) == sat_labels(b),
    ensures
        a == b,
{
    assert(sat_labels(a)[0] == sat_labels(b)[0]);
    assert(sat_labels(a)[1] == sat_labels(b)[1]);
    assert(sat_labels(a)[2] == sat_labels(b)[2]);
    assert(sat_labels(a)[3] == sat_labels(b)[3]);
    lemma_signed_decimal_injective(a.svid as int, b.svid as int);
    lemma_signed_decimal_injective(a.gnssid as int, b.gnssid as int);
    match (a.prn, b.prn) {
        (Some(x), Some(y)) => {
            lemma_signed_decimal_injective(x as int, y as int);
        },
        (Some(x), None) => {
            lemma_first_is_not_question_mark(x as int);
        },
        (None, Some(y)) => {
            lemma_first_is_not_question_mark(y as int);
        },
        (None, None) => {},
    }
    if a.used != b.used {
        assert(used_text(a.used).len() != used_text(b.used).len());
    }
}

proof fn lemma_first_is_not_question_mark(i: int)
    ensures
        signed_decimal(i).len() >= 1,
        signed_decimal(i)[0] != '?',
{
    if i < 0 {
        lemma_decimal_shape((-i) as nat);
    } else {
        lemma_decimal_shape(i as nat);
        assert(is_digit(decimal(i as nat)[0]));
    }
}

} // verus!
