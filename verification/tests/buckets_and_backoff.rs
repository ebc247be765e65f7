use gpsd_exporter::backoff::Backoff;
use gpsd_exporter::buckets::{make_geo_offset_steps, make_geo_yx_steps, make_pps_buckets};

#[test]
fn pps_buckets_default_layout() {
    let b = make_pps_buckets(250, 40);
    assert_eq!(b.len(), 41);
    assert_eq!(b[0], -5000);
    assert_eq!(b[20], 0);
    assert_eq!(b[40], 5000);
    for w in b.windows(2) {
        assert_eq!(w[1] - w[0], 250);
    }
}

#[test]
fn pps_buckets_odd_and_negative_counts() {
    assert_eq!(make_pps_buckets(10, 5), vec![-20, -10, 0, 10, 20]);
    assert_eq!(make_pps_buckets(10, 1), vec![0]);
    assert_eq!(make_pps_buckets(10, 0), vec![0]);
    assert_eq!(make_pps_buckets(10, -1), vec![0]);
    assert!(make_pps_buckets(10, -5).is_empty());
    assert_eq!(make_pps_buckets(-3, 4), vec![6, 3, 0, -3, -6]);
}

#[test]
fn pps_buckets_symmetric() {
    let b = make_pps_buckets(7, 10);
    for k in 0..b.len() {
        assert_eq!(b[k], -b[b.len() - 1 - k]);
    }
}

#[test]
fn geo_steps() {
    assert_eq!(make_geo_offset_steps(5), vec![1, 2, 3, 4]);
    assert!(make_geo_offset_steps(1).is_empty());
    assert!(make_geo_offset_steps(-3).is_empty());
    assert_eq!(make_geo_offset_steps(40).len(), 39);
    assert_eq!(make_geo_yx_steps(4), vec![-2, -1, 0, 1, 2]);
    assert_eq!(make_geo_yx_steps(40).len(), 41);
}

#[test]
fn backoff_doubles_up_to_ceiling() {
    let mut b = Backoff::new(10, 300);
    let waits: Vec<u64> = (0..8).map(|_| b.next_wait(false)).collect();
    assert_eq!(waits, vec![10, 20, 40, 80, 160, 300, 300, 300]);
}

#[test]
fn backoff_restarts_after_connection() {
    let mut b = Backoff::new(10, 300);
    assert_eq!(b.next_wait(false), 10);
    assert_eq!(b.next_wait(false), 20);
    assert_eq!(b.next_wait(false), 40);
    assert_eq!(b.next_wait(true), 10);
    assert_eq!(b.next_wait(false), 20);
    assert_eq!(b.pending_delay(), 40);
}

#[test]
fn backoff_initial_above_ceiling() {
    let mut b = Backoff::new(500, 300);
    assert_eq!(b.pending_delay(), 300);
    assert_eq!(b.next_wait(false), 300);
    assert_eq!(b.next_wait(false), 300);
    assert_eq!(b.next_wait(true), 300);
    assert_eq!(b.next_wait(false), 300);
}

#[test]
fn backoff_never_exceeds_maximum() {
    let mut b = Backoff::new(600, 300);
    for k in 0..20 {
        assert!(b.next_wait(k % 3 == 0) <= 300);
    }
    let mut b = Backoff::new(7, u64::MAX);
    let mut last = 0;
    for _ in 0..70 {
        let w = b.next_wait(false);
        assert!(w >= last);
        last = w;
    }
    assert_eq!(last, u64::MAX);
}

#[test]
fn backoff_zero_ceiling() {
    let mut b = Backoff::new(10, 0);
    assert_eq!(b.next_wait(false), 0);
    assert_eq!(b.next_wait(false), 0);
    assert_eq!(b.next_wait(false), 0);
}

#[test]
fn watch_request_text() {
    assert_eq!(gpsd_exporter::gpsd::watch_request(), "?WATCH={\"enable\":true,\"json\":true}\n");
}
