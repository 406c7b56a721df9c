use hakoniwa::contrib::time::from_timeval_into_duration;
use hakoniwa::metric::{ProcPidStatus, SmapsRollup, StatusFields};
use hakoniwa::{Rusage, UsageTimes};
use std::time::Duration;

#[test]
fn timeval_becomes_duration() {
    let d = from_timeval_into_duration(3, 250_000);
    assert_eq!(d, Duration::new(3, 250_000_000));
    let d = from_timeval_into_duration(0, 1_500_000);
    assert_eq!(d.as_secs(), 1);
    assert_eq!(d.subsec_nanos(), 500_000_000);
}

#[test]
fn rusage_from_usage() {
    let usage = UsageTimes { user_sec: 1, user_usec: 20, system_sec: 0, system_usec: 999_999, max_rss: 4096 };
    let r = Rusage::from_usage(&usage, Duration::from_millis(1500)).unwrap();
    assert_eq!(r.real_time, Duration::from_millis(1500));
    assert_eq!(r.user_time, Duration::new(1, 20_000));
    assert_eq!(r.system_time, Duration::new(0, 999_999_000));
    assert_eq!(r.max_rss, 4096);
}

#[test]
fn status_missing_fields_are_zero() {
    let f = StatusFields {
        vmpeak: Some(100),
        vmsize: Some(90),
        vmhwm: None,
        vmrss: Some(10),
        vmdata: None,
        vmstk: Some(132),
        vmexe: None,
        vmlib: Some(2000),
        vmpte: None,
        vmswap: Some(0),
        rssanon: Some(4),
        rssfile: None,
        rssshmem: Some(1),
    };
    let s = ProcPidStatus::from_status_fields(&f).unwrap();
    assert_eq!(s.vmpeak, 100);
    assert_eq!(s.vmsize, 90);
    assert_eq!(s.vmhwm, 0);
    assert_eq!(s.vmrss, 10);
    assert_eq!(s.vmdata, 0);
    assert_eq!(s.vmstk, 132);
    assert_eq!(s.vmexe, 0);
    assert_eq!(s.vmlib, 2000);
    assert_eq!(s.vmpte, 0);
    assert_eq!(s.vmswap, 0);
    assert_eq!(s.rssanon, 4);
    assert_eq!(s.rssfile, 0);
    assert_eq!(s.rssshmem, 1);
}

#[test]
fn smaps_rollup_of_no_map_is_none() {
    assert!(SmapsRollup::from_memory_maps(&vec![]).is_none());
}

#[test]
fn smaps_rollup_reads_the_first_map_in_kilobytes() {
    let first = vec![
        ("Rss".to_string(), 8192u64),
        ("Pss".to_string(), 4096),
        ("Pss_Anon".to_string(), 2047),
        ("Shared_Clean".to_string(), 1024),
        ("Private_Dirty".to_string(), 3072),
        ("Size".to_string(), 999_999),
    ];
    let second = vec![("Rss".to_string(), 1_048_576u64)];
    let r = SmapsRollup::from_memory_maps(&vec![first, second]).unwrap();
    assert_eq!(r.rss, 8);
    assert_eq!(r.pss, 4);
    assert_eq!(r.pss_anon, 1);
    assert_eq!(r.shared_clean, 1);
    assert_eq!(r.private_dirty, 3);
    assert_eq!(r.shared_dirty, 0);
    assert_eq!(r.private_clean, 0);
    assert_eq!(r.pss_dirty, 0);
    assert_eq!(r.pss_file, 0);
    assert_eq!(r.pss_shmem, 0);
}

#[test]
fn smaps_rollup_default_is_zero() {
    let r = SmapsRollup::default();
    assert_eq!(r.rss + r.pss + r.pss_shmem, 0);
}
