use std::convert::TryFrom;
use zx_exception::grant::{
    exception_channel_grant, CHANNEL_CREATOR_RIGHTS, CHANNEL_HANDLE_RIGHTS,
};
use zx_exception::error::ZxError;
use zx_exception::object::{ExceptionChannelOption, ObjectKind};
use zx_exception::handle::Handle;
use zx_exception::rights::Rights;

#[test]
fn composite_masks_have_their_bits() {
    assert_eq!(Rights::BASIC, 0x0000_c003);
    assert_eq!(Rights::IO, 0x0000_000c);
    assert_eq!(Rights::PROPERTY, 0x0000_00c0);
    assert_eq!(Rights::DEFAULT_THREAD, 0x0004_d2cf);
    assert_eq!(Rights::DEFAULT_PROCESS, 0x0006_d3cf);
    assert_eq!(Rights::DEFAULT_JOB, 0x0007_dfcf);
    assert_eq!(CHANNEL_CREATOR_RIGHTS, 0x0004_8003);
    assert_eq!(CHANNEL_HANDLE_RIGHTS, 0x0000_4006);
}

#[test]
fn contains_is_subset() {
    let all = Rights::new(Rights::DEFAULT_PROCESS);
    assert!(all.contains(Rights::new(Rights::READ | Rights::WRITE)));
    assert!(all.contains(Rights::empty()));
    assert!(!all.contains(Rights::new(Rights::MANAGE_JOB)));
    assert!(!Rights::new(Rights::READ).contains(Rights::new(Rights::READ | Rights::WRITE)));
    assert!(Rights::empty().contains(Rights::default()));
    assert!(Rights::default().is_empty());
    assert_eq!(Rights::default().bits(), 0);
}

#[test]
fn derived_rights_never_escalate() {
    let sources = [0u32, Rights::READ, Rights::DEFAULT_THREAD, Rights::DEFAULT_JOB, 0xffff_ffff];
    let wishes = [0u32, Rights::WRITE, Rights::DEFAULT_PROCESS, Rights::SAME_RIGHTS, 0xffff_ffff];
    for s in sources {
        for w in wishes {
            let source = Rights::new(s);
            let derived = source & Rights::new(w);
            assert!(source.contains(derived));
            assert!(Rights::new(w).contains(derived));
            assert_eq!(derived, source.intersection(Rights::new(w)));
            assert_eq!(derived.bits(), s & w);
        }
    }
}

#[test]
fn union_holds_both_parts() {
    let u = Rights::new(Rights::READ) | Rights::new(Rights::WAIT);
    assert_eq!(u.bits(), 0x4004);
    assert_eq!(u, Rights::new(Rights::READ).union(Rights::new(Rights::WAIT)));
    assert!(u.contains(Rights::new(Rights::READ)));
    assert!(u.contains(Rights::new(Rights::WAIT)));
    assert!(!u.contains(Rights::new(Rights::WRITE)));
}

#[test]
fn option_numbers_round_trip() {
    assert_eq!(ExceptionChannelOption::try_from(0), Ok(ExceptionChannelOption::Normal));
    assert_eq!(ExceptionChannelOption::try_from(1), Ok(ExceptionChannelOption::Debugger));
    assert_eq!(ExceptionChannelOption::try_from(2), Err(2));
    assert_eq!(ExceptionChannelOption::try_from(0xffff_ffff), Err(0xffff_ffff));
    assert_eq!(u32::from(ExceptionChannelOption::Normal), 0);
    assert_eq!(u32::from(ExceptionChannelOption::Debugger), 1);
}

#[test]
fn grant_checks_in_order() {
    let base = Rights::new(CHANNEL_CREATOR_RIGHTS);
    let full = Rights::new(CHANNEL_CREATOR_RIGHTS | Rights::ENUMERATE);
    let none = Rights::empty();
    // rights come before the option
    assert_eq!(exception_channel_grant(none, 7, ObjectKind::Channel).err(), Some(ZxError::AccessDenied));
    // the option comes before the kind
    assert_eq!(exception_channel_grant(full, 2, ObjectKind::Channel).err(), Some(ZxError::InvalidArgument));
    // the kind comes before the per-kind checks
    assert_eq!(exception_channel_grant(full, 0, ObjectKind::Channel).err(), Some(ZxError::WrongType));
    assert_eq!(exception_channel_grant(full, 1, ObjectKind::Exception).err(), Some(ZxError::WrongType));
    assert_eq!(exception_channel_grant(base, 0, ObjectKind::Job).err(), Some(ZxError::AccessDenied));
    assert_eq!(exception_channel_grant(base, 1, ObjectKind::Process).err(), Some(ZxError::AccessDenied));
    assert_eq!(exception_channel_grant(base, 2, ObjectKind::Job).err(), Some(ZxError::InvalidArgument));
    assert_eq!(exception_channel_grant(full, 1, ObjectKind::Thread).err(), Some(ZxError::InvalidArgument));
    assert_eq!(exception_channel_grant(none, 1, ObjectKind::Thread).err(), Some(ZxError::AccessDenied));
    assert!(exception_channel_grant(base, 0, ObjectKind::Thread).is_ok());
    assert!(exception_channel_grant(full, 0, ObjectKind::Job).is_ok());
    assert!(exception_channel_grant(full, 1, ObjectKind::Job).is_ok());
    assert!(exception_channel_grant(full, 0, ObjectKind::Process).is_ok());
    assert!(exception_channel_grant(full, 1, ObjectKind::Process).is_ok());
}

#[test]
fn grant_carries_the_creators_ceiling() {
    let rights = Rights::new(Rights::DEFAULT_JOB);
    let grant = exception_channel_grant(rights, 1, ObjectKind::Process).unwrap();
    assert_eq!(grant.option, ExceptionChannelOption::Debugger);
    assert_eq!(grant.thread_rights.bits(), Rights::DEFAULT_THREAD);
    assert_eq!(grant.process_rights.bits(), Rights::DEFAULT_PROCESS);
    assert_eq!(grant.handle_rights.bits(), Rights::TRANSFER | Rights::WAIT | Rights::READ);

    let narrow = Rights::new(CHANNEL_CREATOR_RIGHTS | Rights::MANAGE_JOB);
    let grant = exception_channel_grant(narrow, 0, ObjectKind::Thread).unwrap();
    assert_eq!(grant.option, ExceptionChannelOption::Normal);
    assert_eq!(grant.thread_rights.bits(), CHANNEL_CREATOR_RIGHTS);
    assert_eq!(grant.process_rights.bits(), CHANNEL_CREATOR_RIGHTS);
    assert_eq!(grant.handle_rights.bits(), 0x4006);
}

#[test]
fn check_denies_a_missing_right() {
    let held = Rights::new(Rights::READ | Rights::WAIT);
    assert_eq!(held.check(Rights::new(Rights::READ)), Ok(()));
    assert_eq!(held.check(Rights::empty()), Ok(()));
    assert_eq!(held.check(held), Ok(()));
    assert_eq!(held.check(Rights::new(Rights::READ | Rights::WRITE)), Err(ZxError::AccessDenied));
    assert_eq!(Rights::empty().check(Rights::new(Rights::SAME_RIGHTS)), Err(ZxError::AccessDenied));
}

#[test]
fn derived_handle_keeps_the_object_and_loses_rights() {
    let source = Handle::new(12, Rights::new(Rights::DEFAULT_THREAD));
    let derived = source.derive(Rights::new(Rights::READ | Rights::MANAGE_JOB));
    assert_eq!(derived.object, 12);
    assert_eq!(derived.rights.bits(), Rights::READ);
    let same = source.derive(Rights::new(0xffff_ffff));
    assert_eq!(same.rights, source.rights);
    let none = source.derive(Rights::empty());
    assert!(none.rights.is_empty());
    let twice = derived.derive(Rights::new(Rights::DEFAULT_JOB));
    assert!(source.rights.contains(twice.rights));
    assert_eq!(twice.rights.bits(), Rights::READ);
}
