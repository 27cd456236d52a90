use mallctl::Ctl;
use mallctl::Mib;
use mallctl::raw::get_u64;
use mallctl::raw::get_u64_mib;
use mallctl::raw::get_usize;
use mallctl::raw::get_usize_mib;
use mallctl::raw::name_to_mib;
use mallctl::raw::ptr2str;
use mallctl::raw::set_u64;
use mallctl::raw::validate_name;
use mallctl::error::EINVAL;
use mallctl::error::ENOENT;

#[test]
fn ctl_get_set() {
    let mut ctl = Ctl::new();
    let epoch: u64 = get_u64(&ctl, b"epoch\0").unwrap();
    assert!(epoch > 0);
    set_u64(&mut ctl, b"epoch\0", epoch).unwrap();
}

#[test]
fn test_ptr2str() {
    {
        let cstr = b"\0";
        let rstr = ptr2str(cstr);
        assert!(rstr.is_ok());
        let rstr = rstr.unwrap();
        assert!(rstr.len() == 1);
        assert_eq!(rstr, "\0");
    }
    {
        let cstr = b"foo  baaar\0";
        let rstr = ptr2str(cstr);
        assert!(rstr.is_ok());
        let rstr = rstr.unwrap();
        assert!(rstr.len() == "foo  baaar\0".len());
        assert_eq!(rstr, "foo  baaar\0");
    }
}

#[test]
fn ptr2str_rejects_invalid_utf8() {
    let cstr = [0xffu8, 0xfe, 0x00];
    let rstr = ptr2str(&cstr);
    assert_eq!(rstr.unwrap_err().code, EINVAL);
}

#[test]
fn ptr2str_stops_at_first_nul() {
    let cstr = b"ab\0cd\0";
    assert_eq!(ptr2str(cstr).unwrap(), "ab\0");
}

#[test]
fn validate_name_accepts_only_null_terminated() {
    assert!(validate_name(b"epoch\0"));
    assert!(!validate_name(b"epoch"));
    assert!(!validate_name(b""));
}

#[test]
fn name_resolution_round_trip() {
    let ctl = Ctl::new();
    let mut path = vec![0usize, 0usize];
    name_to_mib(b"stats.allocated\0", &mut path).unwrap();
    assert_eq!(path, vec![7, 0]);
    let mib = Mib { path };
    assert_eq!(
        get_usize_mib(&ctl, &mib).unwrap(),
        get_usize(&ctl, b"stats.allocated\0").unwrap()
    );
}

#[test]
fn name_to_mib_depth_mismatch() {
    let mut path = vec![0usize];
    let e = name_to_mib(b"stats.allocated\0", &mut path).unwrap_err();
    assert_eq!(e.code, EINVAL);
    assert_eq!(path, vec![0]);
}

#[test]
fn name_to_mib_unknown_name() {
    let mut path = vec![0usize, 0usize];
    let e = name_to_mib(b"stats.nonsense\0", &mut path).unwrap_err();
    assert_eq!(e.code, ENOENT);
}

#[test]
fn epoch_mib_matches_name() {
    let mut ctl = Ctl::new();
    let mut path = vec![0usize];
    name_to_mib(b"epoch\0", &mut path).unwrap();
    assert_eq!(path, vec![1]);
    let mib = Mib { path };
    assert_eq!(
        get_u64_mib(&ctl, &mib).unwrap(),
        get_u64(&ctl, b"epoch\0").unwrap()
    );
    set_u64(&mut ctl, b"epoch\0", 0).unwrap();
    assert_eq!(get_u64_mib(&ctl, &mib).unwrap(), 2);
}
