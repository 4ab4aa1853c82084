use sysv_shm::flags;
use sysv_shm::flags::ShmatFlag;
use sysv_shm::flags::ShmctlFlag;
use sysv_shm::flags::ShmgetFlag;
use sysv_shm::mode;
use sysv_shm::mode::Mode;
use sysv_shm::shm::shmat_word;
use sysv_shm::shm::shmctl_word;
use sysv_shm::shm::shmget_word;

#[test]
fn get_flag_constants_match_the_system() {
    assert_eq!(flags::IPC_PRIVATE, libc::IPC_PRIVATE);
    assert_eq!(flags::IPC_CREAT, libc::IPC_CREAT);
    assert_eq!(flags::IPC_EXCL, libc::IPC_EXCL);
    assert_eq!(flags::SHM_HUGETLB, libc::SHM_HUGETLB);
    assert_eq!(flags::SHM_NORESERVE, libc::SHM_NORESERVE);
}

#[test]
fn attach_flag_constants_match_the_system() {
    assert_eq!(flags::SHM_RDONLY, libc::SHM_RDONLY);
    assert_eq!(flags::SHM_RND, libc::SHM_RND);
    assert_eq!(flags::SHM_REMAP, libc::SHM_REMAP);
    assert_eq!(flags::SHM_EXEC, libc::SHM_EXEC);
}

#[test]
fn control_flag_constants_match_the_system() {
    assert_eq!(flags::IPC_RMID, libc::IPC_RMID);
    assert_eq!(flags::IPC_SET, libc::IPC_SET);
    assert_eq!(flags::IPC_STAT, libc::IPC_STAT);
    assert_eq!(flags::IPC_INFO, libc::IPC_INFO);
    assert_eq!(flags::SHM_LOCK, libc::SHM_LOCK);
    assert_eq!(flags::SHM_UNLOCK, libc::SHM_UNLOCK);
}

#[test]
fn mode_constants_match_the_system() {
    assert_eq!(mode::S_IRWXU, libc::S_IRWXU);
    assert_eq!(mode::S_IRUSR, libc::S_IRUSR);
    assert_eq!(mode::S_IWUSR, libc::S_IWUSR);
    assert_eq!(mode::S_IXUSR, libc::S_IXUSR);
    assert_eq!(mode::S_IRWXG, libc::S_IRWXG);
    assert_eq!(mode::S_IRGRP, libc::S_IRGRP);
    assert_eq!(mode::S_IWGRP, libc::S_IWGRP);
    assert_eq!(mode::S_IXGRP, libc::S_IXGRP);
    assert_eq!(mode::S_IRWXO, libc::S_IRWXO);
    assert_eq!(mode::S_IROTH, libc::S_IROTH);
    assert_eq!(mode::S_IWOTH, libc::S_IWOTH);
    assert_eq!(mode::S_IXOTH, libc::S_IXOTH);
}

#[test]
fn get_flags_compose_by_union() {
    let both = ShmgetFlag::ipc_creat().union(ShmgetFlag::ipc_excl());
    assert_eq!(both.bits(), libc::IPC_CREAT | libc::IPC_EXCL);
    assert!(both.contains(ShmgetFlag::ipc_creat()));
    assert!(both.contains(ShmgetFlag::ipc_excl()));
    assert!(!ShmgetFlag::ipc_creat().contains(both));
    assert_eq!(ShmgetFlag::empty().bits(), 0);
}

#[test]
fn attach_flags_compose_by_union() {
    let both = ShmatFlag::shm_rdonly().union(ShmatFlag::shm_rnd());
    assert_eq!(both.bits(), libc::SHM_RDONLY | libc::SHM_RND);
    assert!(both.contains(ShmatFlag::shm_rdonly()));
    assert!(!both.contains(ShmatFlag::shm_exec()));
    assert_eq!(ShmatFlag::empty().bits(), 0);
    assert_eq!(ShmatFlag::shm_remap().bits(), libc::SHM_REMAP);
}

#[test]
fn get_flags_validate_their_universe() {
    assert_eq!(
        ShmgetFlag::from_bits(libc::IPC_CREAT).map(|f| f.bits()),
        Some(libc::IPC_CREAT)
    );
    assert!(ShmgetFlag::from_bits(0o1).is_none());
    assert!(ShmgetFlag::from_bits(libc::SHM_EXEC).is_none());
}

#[test]
fn attach_flags_validate_their_universe() {
    assert_eq!(
        ShmatFlag::from_bits(libc::SHM_EXEC).map(|f| f.bits()),
        Some(libc::SHM_EXEC)
    );
    assert!(ShmatFlag::from_bits(0o1).is_none());
    assert!(ShmatFlag::from_bits(0o200000).is_none());
}

#[test]
fn control_flags_validate_their_commands() {
    assert_eq!(
        ShmctlFlag::from_bits(libc::IPC_RMID).map(|f| f.bits()),
        Some(libc::IPC_RMID)
    );
    assert_eq!(
        ShmctlFlag::from_bits(libc::SHM_UNLOCK).map(|f| f.bits()),
        Some(libc::SHM_UNLOCK)
    );
    assert!(ShmctlFlag::from_bits(4).is_none());
    assert_eq!(ShmctlFlag::ipc_rmid().bits(), libc::IPC_RMID);
    assert_eq!(ShmctlFlag::ipc_set().bits(), libc::IPC_SET);
    assert_eq!(ShmctlFlag::ipc_stat().bits(), libc::IPC_STAT);
    assert_eq!(ShmctlFlag::ipc_info().bits(), libc::IPC_INFO);
    assert_eq!(ShmctlFlag::shm_lock().bits(), libc::SHM_LOCK);
    assert_eq!(ShmctlFlag::shm_unlock().bits(), libc::SHM_UNLOCK);
}

#[test]
fn modes_compose_by_union() {
    let all = Mode::s_irwxu().union(Mode::s_irwxg()).union(Mode::s_irwxo());
    assert_eq!(all.bits(), libc::S_IRWXU | libc::S_IRWXG | libc::S_IRWXO);
    assert!(all.contains(Mode::s_iwoth()));
    assert!(!Mode::s_irwxg().contains(Mode::s_irusr()));
    assert_eq!(Mode::empty().bits(), 0);
    assert_eq!(Mode::s_irgrp().bits(), libc::S_IRGRP);
    assert_eq!(Mode::s_ixgrp().bits(), libc::S_IXGRP);
    assert_eq!(Mode::s_iroth().bits(), libc::S_IROTH);
    assert_eq!(Mode::s_ixoth().bits(), libc::S_IXOTH);
}

#[test]
fn modes_validate_their_universe() {
    assert_eq!(Mode::from_bits(0o7777).map(|m| m.bits()), Some(0o7777));
    assert!(Mode::from_bits(0o10000).is_none());
    assert_eq!(Mode::from_bits(0o644).unwrap().bits_i32(), 0o644);
}

#[test]
fn call_words_compose_mode_and_flags() {
    let word = shmget_word(
        ShmgetFlag::ipc_creat().union(ShmgetFlag::ipc_excl()),
        Mode::s_irwxu(),
    );
    assert_eq!(word, libc::IPC_CREAT | libc::IPC_EXCL | libc::S_IRWXU as i32);
    let word = shmat_word(ShmatFlag::shm_rdonly(), Mode::empty());
    assert_eq!(word, libc::SHM_RDONLY);
    let word = shmctl_word(ShmctlFlag::ipc_rmid(), Mode::empty());
    assert_eq!(word, libc::IPC_RMID);
}
