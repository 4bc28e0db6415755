use libaiofut::config::{check_setup, AIOBuilder, Errnos, Error};

const LINUX: Errnos = Errnos { eagain: 11, enomem: 12, enosys: 38 };

#[test]
fn builder_defaults() {
    let b = AIOBuilder::default();
    assert_eq!(b.max_events, 128);
    assert_eq!(b.max_nwait, 128);
    assert_eq!(b.max_nbatched, 128);
    assert_eq!(b.timeout, None);
}

#[test]
fn builder_setters() {
    let mut b = AIOBuilder::default();
    b.max_events(16);
    b.max_nwait(8);
    b.max_nbatched(4);
    let r = b.timeout(3);
    assert_eq!(r.max_events, 16);
    assert_eq!(r.max_nwait, 8);
    assert_eq!(r.max_nbatched, 4);
    assert_eq!(r.timeout, Some(3));
}

#[test]
fn setup_errors() {
    assert_eq!(check_setup(0, &LINUX), Ok(()));
    assert_eq!(check_setup(-11, &LINUX), Err(Error::MaxEventsTooLarge));
    assert_eq!(check_setup(-12, &LINUX), Err(Error::LowKernelRes));
    assert_eq!(check_setup(-38, &LINUX), Err(Error::NotSupported));
    assert_eq!(check_setup(-22, &LINUX), Err(Error::OtherError));
    assert_eq!(check_setup(5, &LINUX), Err(Error::OtherError));
}

#[test]
fn setup_errors_follow_platform_codes() {
    let mips = Errnos { eagain: 11, enomem: 12, enosys: 89 };
    assert_eq!(check_setup(-89, &mips), Err(Error::NotSupported));
    assert_eq!(check_setup(-38, &mips), Err(Error::OtherError));
}
