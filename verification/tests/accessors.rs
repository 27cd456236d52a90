use mallctl::BackgroundThread;
use mallctl::Ctl;
use mallctl::Epoch;
use mallctl::MaxBackgroundThreads;
use mallctl::Version;
use mallctl::arenas;
use mallctl::background_thread;
use mallctl::config;
use mallctl::epoch;
use mallctl::max_background_threads;
use mallctl::opt;
use mallctl::set_background_thread;
use mallctl::set_max_background_threads;
use mallctl::stats;
use mallctl::thread;
use mallctl::version;

#[test]
fn epoch_advances_by_one() {
    let mut ctl = Ctl::new();
    let a = epoch(&mut ctl).unwrap();
    let b = epoch(&mut ctl).unwrap();
    assert_eq!(a + 1, b);
}

#[test]
fn epoch_update_returns_value_before_increment() {
    let mut ctl = Ctl::new();
    let e = Epoch::new().unwrap();
    let first = e.advance(&mut ctl).unwrap();
    let second = e.advance(&mut ctl).unwrap();
    assert_eq!(first, 1);
    assert_eq!(second, 2);
    assert!(first < second);
    assert_eq!(ctl.epoch, 3);
}

#[test]
fn version_is_valid_utf8_and_non_empty() {
    let ctl = Ctl::new();
    let v = version(&ctl).unwrap();
    assert!(!v.is_empty());
    assert_eq!(v, "5.1.0-0-g0\0");
    let w = Version::new().unwrap().get(&ctl).unwrap();
    assert_eq!(v, w);
}

#[test]
fn stats_agree_between_name_and_mib() {
    let ctl = Ctl::new();
    assert_eq!(
        stats::allocated(&ctl).unwrap(),
        stats::Allocated::new().unwrap().get(&ctl).unwrap()
    );
    assert_eq!(
        stats::active(&ctl).unwrap(),
        stats::Active::new().unwrap().get(&ctl).unwrap()
    );
    assert_eq!(
        stats::metadata(&ctl).unwrap(),
        stats::Metadata::new().unwrap().get(&ctl).unwrap()
    );
    assert_eq!(
        stats::resident(&ctl).unwrap(),
        stats::Resident::new().unwrap().get(&ctl).unwrap()
    );
    assert_eq!(
        stats::mapped(&ctl).unwrap(),
        stats::Mapped::new().unwrap().get(&ctl).unwrap()
    );
    assert_eq!(
        stats::retained(&ctl).unwrap(),
        stats::Retained::new().unwrap().get(&ctl).unwrap()
    );
    assert!(stats::active(&ctl).unwrap() >= stats::allocated(&ctl).unwrap());
}

#[test]
fn background_thread_round_trip() {
    let mut ctl = Ctl::new();
    set_background_thread(&mut ctl, true).unwrap();
    assert!(background_thread(&ctl).unwrap());
    let handle = BackgroundThread::new().unwrap();
    handle.set(&mut ctl, false).unwrap();
    assert!(!handle.get(&ctl).unwrap());
}

#[test]
fn max_background_threads_round_trip() {
    let mut ctl = Ctl::new();
    set_max_background_threads(&mut ctl, 1).unwrap();
    assert_eq!(max_background_threads(&ctl).unwrap(), 1);
    let handle = MaxBackgroundThreads::new().unwrap();
    handle.set(&mut ctl, 7).unwrap();
    assert_eq!(handle.get(&ctl).unwrap(), 7);
}

#[test]
fn options_agree_between_name_and_mib() {
    let ctl = Ctl::new();
    assert_eq!(opt::abort(&ctl).unwrap(), false);
    assert_eq!(
        opt::abort(&ctl).unwrap(),
        opt::Abort::new().unwrap().get(&ctl).unwrap()
    );
    assert_eq!(opt::dss(&ctl).unwrap(), "secondary\0");
    assert_eq!(
        opt::dss(&ctl).unwrap(),
        opt::Dss::new().unwrap().get(&ctl).unwrap()
    );
    assert_eq!(opt::narenas(&ctl).unwrap(), 8);
    assert_eq!(
        opt::narenas(&ctl).unwrap(),
        opt::NArenas::new().unwrap().get(&ctl).unwrap()
    );
    assert_eq!(opt::junk(&ctl).unwrap(), "false\0");
    assert_eq!(
        opt::junk(&ctl).unwrap(),
        opt::Junk::new().unwrap().get(&ctl).unwrap()
    );
    assert_eq!(opt::zero(&ctl).unwrap(), false);
    assert_eq!(opt::tcache(&ctl).unwrap(), true);
    assert_eq!(opt::lg_tcache_max(&ctl).unwrap(), 15);
    assert_eq!(
        opt::lg_tcache_max(&ctl).unwrap(),
        opt::LgTcacheMax::new().unwrap().get(&ctl).unwrap()
    );
    assert_eq!(opt::background_thread(&ctl).unwrap(), false);
    assert_eq!(
        opt::background_thread(&ctl).unwrap(),
        opt::BackgroundThread::new().unwrap().get(&ctl).unwrap()
    );
}

#[test]
fn arenas_and_config() {
    let ctl = Ctl::new();
    assert_eq!(arenas::narenas(&ctl).unwrap(), 8);
    assert_eq!(
        arenas::narenas(&ctl).unwrap(),
        arenas::NArenas::new().unwrap().get(&ctl).unwrap()
    );
    assert_eq!(config::malloc_conf(&ctl).unwrap(), "\0");
    assert_eq!(
        config::malloc_conf(&ctl).unwrap(),
        config::MallocConf::new().unwrap().get(&ctl).unwrap()
    );
}

#[test]
fn thread_counters_start_at_zero() {
    let ctl = Ctl::new();
    assert_eq!(thread::allocatedp(&ctl).unwrap().get(), 0);
    assert_eq!(thread::deallocatedp(&ctl).unwrap().get(), 0);
    let a = thread::AllocatedP::new().unwrap();
    assert_eq!(a.get(&ctl).unwrap().get(), 0);
    let d = thread::DeallocatedP::new().unwrap();
    assert_eq!(d.get(&ctl).unwrap().get(), 0);
}
