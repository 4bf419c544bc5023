use evr::rusage::{timeval_to_micros, RssUnit, Rusage};
use nix::libc;

fn tv(sec: i64, usec: i64) -> libc::timeval {
    libc::timeval { tv_sec: sec, tv_usec: usec }
}

fn raw_usage(utime: libc::timeval, stime: libc::timeval, maxrss: i64) -> libc::rusage {
    libc::rusage {
        ru_utime: utime,
        ru_stime: stime,
        ru_maxrss: maxrss,
        ru_ixrss: 1,
        ru_idrss: 2,
        ru_isrss: 3,
        ru_minflt: 4,
        ru_majflt: 5,
        ru_nswap: 6,
        ru_inblock: 7,
        ru_oublock: 8,
        ru_msgsnd: 9,
        ru_msgrcv: 10,
        ru_nsignals: 11,
        ru_nvcsw: 12,
        ru_nivcsw: 13,
    }
}

#[test]
fn timeval_converts_to_microseconds() {
    assert_eq!(timeval_to_micros(&tv(1, 500)), Some(1_000_500));
    assert_eq!(timeval_to_micros(&tv(0, 0)), Some(0));
    assert_eq!(timeval_to_micros(&tv(0, 999_999)), Some(999_999));
}

#[test]
fn timeval_rejects_negative_parts() {
    assert_eq!(timeval_to_micros(&tv(-1, 0)), None);
    assert_eq!(timeval_to_micros(&tv(0, -5)), None);
}

#[test]
fn timeval_rejects_overflow() {
    assert_eq!(timeval_to_micros(&tv(i64::MAX, 0)), None);
    let largest_sec = (u64::MAX / 1_000_000) as i64;
    assert_eq!(timeval_to_micros(&tv(largest_sec, 0)), Some(largest_sec as u64 * 1_000_000));
}

#[test]
fn raw_usage_copies_counters_verbatim() {
    let u = Rusage::from_raw(&raw_usage(tv(2, 3), tv(0, 40), 5120), RssUnit::Kilobytes).unwrap();
    assert_eq!(u.ru_utime, 2_000_003);
    assert_eq!(u.ru_stime, 40);
    assert_eq!(u.ru_maxrss, 5120);
    assert_eq!(u.maxrss_unit, RssUnit::Kilobytes);
    assert_eq!(
        [u.ru_ixrss, u.ru_idrss, u.ru_isrss, u.ru_minflt, u.ru_majflt, u.ru_nswap, u.ru_inblock],
        [1, 2, 3, 4, 5, 6, 7]
    );
    assert_eq!(
        [u.ru_oublock, u.ru_msgsnd, u.ru_msgrcv, u.ru_nsignals, u.ru_nvcsw, u.ru_nivcsw],
        [8, 9, 10, 11, 12, 13]
    );
}

#[test]
fn raw_usage_with_bad_time_is_rejected() {
    assert!(Rusage::from_raw(&raw_usage(tv(-2, 0), tv(0, 0), 1), RssUnit::Bytes).is_none());
    assert!(Rusage::from_raw(&raw_usage(tv(0, 0), tv(0, -1), 1), RssUnit::Bytes).is_none());
}

#[test]
fn rss_in_kilobytes_is_scaled_by_one_thousand() {
    let u = Rusage::from_raw(&raw_usage(tv(0, 0), tv(0, 0), 2048), RssUnit::Kilobytes).unwrap();
    assert_eq!(u.get_rss_bytes(), 2_048_000);
}

#[test]
fn rss_in_bytes_is_unchanged() {
    let u = Rusage::from_raw(&raw_usage(tv(0, 0), tv(0, 0), 2048), RssUnit::Bytes).unwrap();
    assert_eq!(u.get_rss_bytes(), 2048);
}
