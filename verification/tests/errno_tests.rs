use sysv_shm::errno::Errno;

#[test]
fn raw_codes_match_the_system() {
    assert_eq!(Errno::from_raw(libc::EPERM), Errno::EPERM);
    assert_eq!(Errno::from_raw(libc::ENOENT), Errno::ENOENT);
    assert_eq!(Errno::from_raw(libc::ENOMEM), Errno::ENOMEM);
    assert_eq!(Errno::from_raw(libc::EACCES), Errno::EACCES);
    assert_eq!(Errno::from_raw(libc::EFAULT), Errno::EFAULT);
    assert_eq!(Errno::from_raw(libc::EEXIST), Errno::EEXIST);
    assert_eq!(Errno::from_raw(libc::EINVAL), Errno::EINVAL);
    assert_eq!(Errno::from_raw(libc::ENFILE), Errno::ENFILE);
    assert_eq!(Errno::from_raw(libc::ENOSPC), Errno::ENOSPC);
    assert_eq!(Errno::from_raw(libc::EIDRM), Errno::EIDRM);
    assert_eq!(Errno::from_raw(libc::EOVERFLOW), Errno::EOVERFLOW);
    assert_eq!(Errno::from_raw(0), Errno::UnknownErrno);
    assert_eq!(Errno::from_raw(-3), Errno::UnknownErrno);
    assert_eq!(Errno::from_raw(9999), Errno::UnknownErrno);
}

#[test]
fn kernel_returns_map_to_results() {
    assert_eq!(Errno::result(-1, libc::EEXIST), Err(Errno::EEXIST));
    assert_eq!(Errno::result(-1, libc::ENOENT), Err(Errno::ENOENT));
    assert_eq!(Errno::result(0, libc::EEXIST), Ok(0));
    assert_eq!(Errno::result(41, 0), Ok(41));
    assert_eq!(Errno::result_isize(-1, libc::EINVAL), Err(Errno::EINVAL));
    assert_eq!(Errno::result_isize(0x7000, 0), Ok(0x7000));
}
