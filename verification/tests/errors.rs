use mallctl::Ctl;
use mallctl::Error;
use mallctl::cvt;
use mallctl::error::EAGAIN;
use mallctl::error::EFAULT;
use mallctl::error::EINVAL;
use mallctl::error::ENOENT;
use mallctl::error::EPERM;
use mallctl::raw::get_bool;
use mallctl::raw::get_set_u64;
use mallctl::raw::get_str;
use mallctl::raw::get_u64;
use mallctl::raw::mallctl_fetch;
use mallctl::raw::mallctl_set;
use mallctl::raw::set_bool;
use mallctl::raw::set_u64;

#[test]
fn unknown_key_is_enoent() {
    let ctl = Ctl::new();
    let e = get_u64(&ctl, b"no.such.key\0").unwrap_err();
    assert_eq!(e, Error::enoent());
    assert_eq!(e.code, ENOENT);
}

#[test]
fn size_mismatch_is_einval() {
    let ctl = Ctl::new();
    assert_eq!(get_bool(&ctl, b"epoch\0").unwrap_err().code, EINVAL);
    assert_eq!(get_u64(&ctl, b"background_thread\0").unwrap_err().code, EINVAL);
    assert_eq!(get_str(&ctl, b"epoch\0").unwrap_err().code, EINVAL);
}

#[test]
fn read_only_key_write_is_eperm() {
    let mut ctl = Ctl::new();
    assert_eq!(set_bool(&mut ctl, b"opt.abort\0", true).unwrap_err().code, EPERM);
    assert_eq!(set_u64(&mut ctl, b"version\0", 3).unwrap_err().code, EPERM);
    assert_eq!(
        get_set_u64(&mut ctl, b"stats.allocated\0", 3).unwrap_err().code,
        EPERM
    );
}

#[test]
fn failed_write_leaves_state_unchanged() {
    let mut ctl = Ctl::new();
    let before = ctl.epoch;
    assert!(set_u64(&mut ctl, b"opt.abort\0", 1).is_err());
    assert_eq!(ctl.epoch, before);
    assert!(!ctl.opt_abort);
}

#[test]
fn cvt_maps_status_codes() {
    assert!(cvt(0).is_ok());
    assert_eq!(cvt(EAGAIN).unwrap_err().code, EAGAIN);
    assert_eq!(cvt(EFAULT).unwrap_err().code, EFAULT);
    assert_eq!(cvt(ENOENT).unwrap_err(), Error::enoent());
}

#[test]
fn descriptions_are_fixed_texts() {
    assert!(Error::enoent().description().contains("unknown"));
    assert!(Error::eperm().description().contains("read-only"));
    assert!(Error::einval().description().contains("too large"));
    assert!(cvt(EAGAIN).unwrap_err().description().contains("allocation failure"));
    assert!(cvt(EFAULT).unwrap_err().description().contains("side effects"));
    assert!(cvt(99).unwrap_err().description().contains("Unknown"));
}

#[test]
fn mallctl_fetch_validates_and_reads() {
    let ctl = Ctl::new();
    let mut value: u64 = 0;
    mallctl_fetch(&ctl, b"epoch\0", &mut value).unwrap();
    assert_eq!(value, 1);
    assert_eq!(mallctl_fetch(&ctl, b"", &mut value).unwrap_err(), EINVAL);
    assert_eq!(mallctl_fetch(&ctl, b"epoch", &mut value).unwrap_err(), EINVAL);
    assert_eq!(mallctl_fetch(&ctl, b"no.such\0", &mut value).unwrap_err(), ENOENT);
    assert_eq!(
        mallctl_fetch(&ctl, b"opt.abort\0", &mut value).unwrap_err(),
        EINVAL
    );
}

#[test]
fn mallctl_set_validates_and_writes() {
    let mut ctl = Ctl::new();
    mallctl_set(&mut ctl, b"epoch\0", 9).unwrap();
    assert_eq!(ctl.epoch, 2);
    assert_eq!(mallctl_set(&mut ctl, b"", 9).unwrap_err(), EINVAL);
    assert_eq!(mallctl_set(&mut ctl, b"epoch", 9).unwrap_err(), EINVAL);
    assert_eq!(mallctl_set(&mut ctl, b"no.such\0", 9).unwrap_err(), ENOENT);
    assert_eq!(mallctl_set(&mut ctl, b"version\0", 9).unwrap_err(), EPERM);
}
