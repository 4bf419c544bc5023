//! Resource usage of a reaped child process, converted from the raw `rusage` record.

use vstd::prelude::*;

verus! {

#[verifier::external_type_specification]
pub struct ExTimeval(nix::libc::timeval);

#[verifier::external_type_specification]
pub struct ExRawRusage(nix::libc::rusage);

/// Microseconds in one second.
pub const MICROS_PER_SEC: u64 = 1_000_000;

/// Bytes in one kilobyte, as the peak resident set size is scaled.
pub const BYTES_PER_KILOBYTE: i64 = 1000;

/// The unit in which the platform reports the peak resident set size.
#[derive(Clone, Copy, Debug, PartialEq, Eq, Structural)]
pub enum RssUnit {
    Kilobytes,
    Bytes,
}

/// Resource usage of a child, captured when it was reaped.
///
/// CPU times are in microseconds; the counters are copied verbatim from the
/// operating system. `ru_maxrss` is kept in the platform's own unit, given by
/// `maxrss_unit`; `get_rss_bytes` normalises it.
#[derive(Clone, Copy, Debug, PartialEq, Eq, Structural)]
pub struct Rusage {
    pub ru_utime: u64,
    pub ru_stime: u64,
    pub ru_maxrss: i64,
    pub maxrss_unit: RssUnit,
    pub ru_ixrss: i64,
    pub ru_idrss: i64,
    pub ru_isrss: i64,
    pub ru_minflt: i64,
    pub ru_majflt: i64,
    pub ru_nswap: i64,
    pub ru_inblock: i64,
    pub ru_oublock: i64,
    pub ru_msgsnd: i64,
    pub ru_msgrcv: i64,
    pub ru_nsignals: i64,
    pub ru_nvcsw: i64,
    pub ru_nivcsw: i64,
}

/// The number of microseconds that a `(seconds, microseconds)` pair stands for.
pub open spec fn timeval_micros(sec: int, usec: int) -> int {
    sec * MICROS_PER_SEC + usec
}

/// A pair stands for a duration when neither part is negative and the total fits in `u64`.
pub open spec fn timeval_is_duration(sec: int, usec: int) -> bool {
    &&& sec >= 0
    &&& usec >= 0
    &&& timeval_micros(sec, usec) <= u64::MAX
}

/// The duration held by a raw `timeval`, in microseconds.
pub open spec fn timeval_spec(tv: nix::libc::timeval) -> Option<u64> {
    if timeval_is_duration(tv.tv_sec as int, tv.tv_usec as int) {
        Some(timeval_micros(tv.tv_sec as int, tv.tv_usec as int) as u64)
    } else {
        None
    }
}

/// The usage record that a raw `rusage` converts to, if both of its times are durations.
pub open spec fn rusage_spec(usg: nix::libc::rusage, unit: RssUnit) -> Option<Rusage> {
    match (timeval_spec(usg.ru_utime), timeval_spec(usg.ru_stime)) {
        (Some(ut), Some(st)) => Some(
            Rusage {
                ru_utime: ut,
                ru_stime: st,
                ru_maxrss: usg.ru_maxrss,
                maxrss_unit: unit,
                ru_ixrss: usg.ru_ixrss,
                ru_idrss: usg.ru_idrss,
                ru_isrss: usg.ru_isrss,
                ru_minflt: usg.ru_minflt,
                ru_majflt: usg.ru_majflt,
                ru_nswap: usg.ru_nswap,
                ru_inblock: usg.ru_inblock,
                ru_oublock: usg.ru_oublock,
                ru_msgsnd: usg.ru_msgsnd,
                ru_msgrcv: usg.ru_msgrcv,
                ru_nsignals: usg.ru_nsignals,
                ru_nvcsw: usg.ru_nvcsw,
                ru_nivcsw: usg.ru_nivcsw,
            },
        ),
        _ => None,
    }
}

/// Converts a raw `timeval` into microseconds; `None` when it is negative or too large.
pub fn timeval_to_micros(tv: &nix::libc::timeval) -> (r: Option<u64>)
    ensures
        r == timeval_spec(*tv),
{
    let sec: i64 = tv.tv_sec;
    let usec: i64 = tv.tv_usec;
    if sec < 0 || usec < 0 {
        return None;
    }
    let sec = sec as u64;
    let usec = usec as u64;
    let limit: u64 = (u64::MAX - usec) / MICROS_PER_SEC;
    if sec > limit {
        assert(sec * MICROS_PER_SEC + usec > u64::MAX) by (nonlinear_arith)
            requires
                sec > limit,
                limit == (u64::MAX - usec) / 1_000_000,
                usec <= u64::MAX,
        ;
        return None;
    }
    assert(sec * MICROS_PER_SEC + usec <= u64::MAX) by (nonlinear_arith)
        requires
            sec <= limit,
            limit == (u64::MAX - usec) / 1_000_000,
            usec <= u64::MAX,
    ;
    Some(sec * MICROS_PER_SEC + usec)
}

impl Rusage {
    /// Converts the raw record that the operating system filled in when the child was
    /// reaped. `unit` is the platform's unit for the peak resident set size.
    pub fn from_raw(usg: &nix::libc::rusage, unit: RssUnit) -> (r: Option<Rusage>)
        ensures
            r == rusage_spec(*usg, unit),
    {
        let ut = timeval_to_micros(&usg.ru_utime);
        let st = timeval_to_micros(&usg.ru_stime);
        match (ut, st) {
            (Some(ru_utime), Some(ru_stime)) => Some(
                Rusage {
                    ru_utime,
                    ru_stime,
                    ru_maxrss: usg.ru_maxrss,
                    maxrss_unit: unit,
                    ru_ixrss: usg.ru_ixrss,
                    ru_idrss: usg.ru_idrss,
                    ru_isrss: usg.ru_isrss,
                    ru_minflt: usg.ru_minflt,
                    ru_majflt: usg.ru_majflt,
                    ru_nswap: usg.ru_nswap,
                    ru_inblock: usg.ru_inblock,
                    ru_oublock: usg.ru_oublock,
                    ru_msgsnd: usg.ru_msgsnd,
                    ru_msgrcv: usg.ru_msgrcv,
                    ru_nsignals: usg.ru_nsignals,
                    ru_nvcsw: usg.ru_nvcsw,
                    ru_nivcsw: usg.ru_nivcsw,
                },
            ),
            _ => None,
        }
    }

    /// The peak resident set size in bytes, as a mathematical integer.
    pub open spec fn rss_bytes(&self) -> int {
        match self.maxrss_unit {
            RssUnit::Kilobytes => self.ru_maxrss * BYTES_PER_KILOBYTE,
            RssUnit::Bytes => self.ru_maxrss as int,
        }
    }

    /// The peak resident set size in bytes fits in `i64`.
    pub open spec fn rss_bytes_fit(&self) -> bool {
        i64::MIN <= self.rss_bytes() <= i64::MAX
    }

    /// The peak resident set size in bytes: the kilobyte count times 1000 where the
    /// platform reports kilobytes, the count itself where it reports bytes.
    pub fn get_rss_bytes(&self) -> (r: i64)
        requires
            self.rss_bytes_fit(),
        ensures
            r == self.rss_bytes(),
    {
        match self.maxrss_unit {
            RssUnit::Kilobytes => self.ru_maxrss * BYTES_PER_KILOBYTE,
            RssUnit::Bytes => self.ru_maxrss,
        }
    }
}

} // verus!
