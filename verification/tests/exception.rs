use zx_exception::error::ZxError;
use zx_exception::grant::CHANNEL_CREATOR_RIGHTS;
use zx_exception::handle::{Handle, HandleTable, HandleValue};
use zx_exception::object::{
    ExceptionChannelOption, ExceptionChannelType, Exceptionate, KernelObject, KoId, ObjectKind,
};
use zx_exception::rights::Rights;
use zx_exception::syscall::Syscall;

struct World {
    sys: Syscall,
    job: KoId,
    process: KoId,
    thread: KoId,
}

fn world() -> World {
    let mut sys = Syscall::new();
    let job = sys.create_job(None).unwrap();
    let process = sys.create_process(job).unwrap();
    let thread = sys.create_thread(process).unwrap();
    World { sys, job, process, thread }
}

fn full() -> Rights {
    Rights::new(Rights::DEFAULT_JOB)
}

fn create(sys: &mut Syscall, task: HandleValue, option: u32) -> Result<HandleValue, ZxError> {
    assert!(sys.has_room());
    let mut out: HandleValue = 0;
    sys.sys_create_exception_channel(task, option, &mut out).map(|_| out)
}

fn exceptionate(sys: &Syscall, task: KoId, option: ExceptionChannelOption) -> Exceptionate {
    sys.object(task).unwrap().get_exceptionate(option).unwrap()
}

#[test]
fn handle_table_gives_fresh_values() {
    let mut table = HandleTable::new();
    assert_eq!(table.get(0).err(), Some(ZxError::WrongHandle));
    assert_eq!(table.get(1).err(), Some(ZxError::WrongHandle));
    let a = table.add(Handle::new(3, Rights::new(Rights::READ)));
    let b = table.add(Handle::new(4, Rights::new(Rights::WRITE)));
    assert_eq!((a, b), (1, 2));
    assert_eq!(table.get(a).unwrap().object, 3);
    assert_eq!(table.get(b).unwrap().rights, Rights::new(Rights::WRITE));
    assert_eq!(table.remove(a).unwrap().object, 3);
    assert_eq!(table.get(a).err(), Some(ZxError::WrongHandle));
    assert_eq!(table.remove(a).err(), Some(ZxError::WrongHandle));
    assert_eq!(table.get(b).unwrap().object, 4);
    let c = table.add(Handle::new(5, Rights::empty()));
    assert_eq!(c, 3);
    assert!(table.has_room());
    let d = table.add(Handle::new(5, Rights::empty()));
    assert!(table.has_other_handle(c, 5));
    assert!(table.has_other_handle(d, 5));
    assert!(!table.has_other_handle(b, 4));
    assert!(table.has_other_handle(c, 4));
    assert!(!table.has_other_handle(c, 3));
}

#[test]
fn downcast_accepts_only_the_right_kind() {
    let w = world();
    let job = w.sys.object(w.job).unwrap();
    let process = w.sys.object(w.process).unwrap();
    let thread = w.sys.object(w.thread).unwrap();
    assert_eq!(job.kind(), ObjectKind::Job);
    assert_eq!(process.kind(), ObjectKind::Process);
    assert_eq!(thread.kind(), ObjectKind::Thread);
    assert!(job.downcast_job().is_ok());
    assert_eq!(job.downcast_process().err(), Some(ZxError::WrongType));
    assert_eq!(job.downcast_thread().err(), Some(ZxError::WrongType));
    assert_eq!(process.downcast_job().err(), Some(ZxError::WrongType));
    assert_eq!(process.downcast_process().unwrap().job, w.job);
    assert_eq!(thread.downcast_thread().unwrap().process, w.process);
    assert_eq!(thread.downcast_channel().err(), Some(ZxError::WrongType));
    assert_eq!(thread.downcast_exception().err(), Some(ZxError::WrongType));
    assert!(w.sys.object(w.sys.object_count()).is_none());
}

#[test]
fn objects_are_made_only_inside_their_parents() {
    let mut w = world();
    assert_eq!(w.sys.create_job(Some(w.process)).err(), Some(ZxError::WrongType));
    assert_eq!(w.sys.create_job(Some(99)).err(), Some(ZxError::WrongType));
    assert_eq!(w.sys.create_process(w.thread).err(), Some(ZxError::WrongType));
    assert_eq!(w.sys.create_thread(w.job).err(), Some(ZxError::WrongType));
    assert_eq!(
        w.sys.create_exception(w.process, ExceptionChannelType::Job, full(), full()).err(),
        Some(ZxError::WrongType)
    );
    assert_eq!(w.sys.object_count(), 3);
    let child = w.sys.create_job(Some(w.job)).unwrap();
    assert_eq!(child, 3);
    assert_eq!(w.sys.object(child).unwrap().downcast_job().unwrap().parent, Some(w.job));
}

#[test]
fn unknown_handle_is_wrong_handle() {
    let mut w = world();
    assert_eq!(create(&mut w.sys, 0, 0), Err(ZxError::WrongHandle));
    assert_eq!(create(&mut w.sys, 17, 0), Err(ZxError::WrongHandle));
    let mut out: HandleValue = 5;
    assert_eq!(w.sys.sys_exception_get_thread(17, &mut out), Err(ZxError::WrongHandle));
    assert_eq!(w.sys.sys_exception_get_process(17, &mut out), Err(ZxError::WrongHandle));
    assert_eq!(out, 5);
    assert_eq!(w.sys.get_dyn_object_and_rights(17).err(), Some(ZxError::WrongHandle));
}

#[test]
fn channel_on_each_kind_of_task() {
    let mut w = world();
    let hj = w.sys.add_handle(Handle::new(w.job, full()));
    let hp = w.sys.add_handle(Handle::new(w.process, full()));
    let ht = w.sys.add_handle(Handle::new(w.thread, full()));
    for (handle, task, option) in [
        (hj, w.job, 0u32),
        (hj, w.job, 1),
        (hp, w.process, 0),
        (hp, w.process, 1),
        (ht, w.thread, 0),
    ] {
        let objects_before = w.sys.object_count();
        let which = if option == 0 {
            ExceptionChannelOption::Normal
        } else {
            ExceptionChannelOption::Debugger
        };
        assert!(!exceptionate(&w.sys, task, which).is_bound());
        let user_end = create(&mut w.sys, handle, option).unwrap();
        let (channel, rights) = w.sys.get_dyn_object_and_rights(user_end).unwrap();
        assert_eq!(rights.bits(), Rights::TRANSFER | Rights::WAIT | Rights::READ);
        assert_eq!(channel, objects_before);
        assert_eq!(w.sys.object_count(), objects_before + 1);
        let made = w.sys.object(channel).unwrap().downcast_channel().unwrap();
        assert_eq!(made.owner, task);
        assert_eq!(made.option, which);
        let bound = exceptionate(&w.sys, task, which);
        assert_eq!(bound.channel, Some(channel));
        assert_eq!(bound.thread_rights.bits(), Rights::DEFAULT_THREAD);
        assert_eq!(bound.process_rights.bits(), Rights::DEFAULT_PROCESS);
    }
}

#[test]
fn debugger_channel_on_thread_is_invalid() {
    let mut w = world();
    for extra in [0u32, Rights::ENUMERATE, Rights::DEFAULT_JOB, 0xffff_ffff] {
        let h = w.sys.add_handle(Handle::new(w.thread, Rights::new(CHANNEL_CREATOR_RIGHTS | extra)));
        let count = w.sys.object_count();
        assert_eq!(create(&mut w.sys, h, 1), Err(ZxError::InvalidArgument));
        assert_eq!(w.sys.object_count(), count);
        assert!(!exceptionate(&w.sys, w.thread, ExceptionChannelOption::Normal).is_bound());
    }
    // without the rights that every channel needs, the rights are refused first
    let weak = w.sys.add_handle(Handle::new(w.thread, Rights::empty()));
    assert_eq!(create(&mut w.sys, weak, 1), Err(ZxError::AccessDenied));
}

#[test]
fn job_and_process_need_enumerate() {
    let mut w = world();
    let base = Rights::new(CHANNEL_CREATOR_RIGHTS);
    let hj = w.sys.add_handle(Handle::new(w.job, base));
    let hp = w.sys.add_handle(Handle::new(w.process, base));
    let ht = w.sys.add_handle(Handle::new(w.thread, base));
    for option in [0u32, 1] {
        assert_eq!(create(&mut w.sys, hj, option), Err(ZxError::AccessDenied));
        assert_eq!(create(&mut w.sys, hp, option), Err(ZxError::AccessDenied));
    }
    // an option that does not exist is refused before the kind is looked at
    assert_eq!(create(&mut w.sys, hj, 2), Err(ZxError::InvalidArgument));
    // a thread needs no more than the four
    assert!(create(&mut w.sys, ht, 0).is_ok());
    for missing in [Rights::INSPECT, Rights::DUPLICATE, Rights::TRANSFER, Rights::MANAGE_THREAD] {
        let h = w.sys.add_handle(Handle::new(w.job, Rights::new(Rights::DEFAULT_JOB & !missing)));
        assert_eq!(create(&mut w.sys, h, 0), Err(ZxError::AccessDenied));
        assert_eq!(create(&mut w.sys, h, 9), Err(ZxError::AccessDenied));
    }
}

#[test]
fn other_kinds_are_wrong_type() {
    let mut w = world();
    let ht = w.sys.add_handle(Handle::new(w.thread, full()));
    let channel = create(&mut w.sys, ht, 0).unwrap();
    let (channel_id, _) = w.sys.get_dyn_object_and_rights(channel).unwrap();
    let strong = w.sys.add_handle(Handle::new(channel_id, Rights::new(0xffff_ffff)));
    assert_eq!(create(&mut w.sys, strong, 0), Err(ZxError::WrongType));
    assert_eq!(create(&mut w.sys, strong, 3), Err(ZxError::InvalidArgument));
    // the handle that the creator got lacks the rights, which are checked first
    assert_eq!(create(&mut w.sys, channel, 0), Err(ZxError::AccessDenied));
    let e = w.sys.create_exception(w.thread, ExceptionChannelType::Job, full(), full()).unwrap();
    let he = w.sys.add_handle(Handle::new(e, Rights::new(0xffff_ffff)));
    assert_eq!(create(&mut w.sys, he, 1), Err(ZxError::WrongType));
    let mut out: HandleValue = 0;
    assert_eq!(w.sys.sys_exception_get_thread(strong, &mut out), Err(ZxError::WrongType));
    assert_eq!(w.sys.sys_exception_get_process(ht, &mut out), Err(ZxError::WrongType));
    assert_eq!(out, 0);
}

#[test]
fn second_channel_is_already_bound() {
    let mut w = world();
    let first = w.sys.add_handle(Handle::new(w.process, full()));
    let second = w.sys.add_handle(Handle::new(w.process, full()));
    let user_end = create(&mut w.sys, first, 0).unwrap();
    let count = w.sys.object_count();
    let before = exceptionate(&w.sys, w.process, ExceptionChannelOption::Normal);
    assert_eq!(create(&mut w.sys, first, 0), Err(ZxError::AlreadyBound));
    assert_eq!(create(&mut w.sys, second, 0), Err(ZxError::AlreadyBound));
    assert_eq!(w.sys.object_count(), count);
    let after = exceptionate(&w.sys, w.process, ExceptionChannelOption::Normal);
    assert_eq!(after.channel, before.channel);
    assert_eq!(after.thread_rights, before.thread_rights);
    assert!(w.sys.get_dyn_object_and_rights(user_end).is_ok());
    // the debugger's exceptionate is another one
    let debugger = create(&mut w.sys, second, 1).unwrap();
    assert!(debugger != user_end);
    assert_eq!(create(&mut w.sys, first, 1), Err(ZxError::AlreadyBound));
    // and so is that of another task
    let hj = w.sys.add_handle(Handle::new(w.job, full()));
    assert!(create(&mut w.sys, hj, 0).is_ok());
}

#[test]
fn exceptionate_binds_once() {
    let mut e = Exceptionate::new();
    assert!(!e.is_bound());
    let tr = Rights::new(Rights::READ);
    let pr = Rights::new(Rights::WRITE);
    assert_eq!(e.create_channel(7, tr, pr), Ok(7));
    assert!(e.is_bound());
    assert_eq!((e.channel, e.thread_rights, e.process_rights), (Some(7), tr, pr));
    assert_eq!(e.create_channel(8, pr, tr), Err(ZxError::AlreadyBound));
    assert_eq!((e.channel, e.thread_rights, e.process_rights), (Some(7), tr, pr));
}

#[test]
fn creator_rights_cap_what_the_channel_hands_out() {
    let mut w = world();
    let narrow = Rights::new(CHANNEL_CREATOR_RIGHTS | Rights::ENUMERATE | Rights::MANAGE_JOB);
    let h = w.sys.add_handle(Handle::new(w.job, narrow));
    let user_end = create(&mut w.sys, h, 1).unwrap();
    let bound = exceptionate(&w.sys, w.job, ExceptionChannelOption::Debugger);
    assert_eq!(bound.thread_rights.bits(), CHANNEL_CREATOR_RIGHTS);
    assert_eq!(bound.process_rights.bits(), CHANNEL_CREATOR_RIGHTS | Rights::ENUMERATE);
    assert!(narrow.contains(bound.thread_rights));
    assert!(narrow.contains(bound.process_rights));
    // the creator's handle is fixed, though the creator had neither WAIT nor READ
    let (_, rights) = w.sys.get_dyn_object_and_rights(user_end).unwrap();
    assert_eq!(rights.bits(), 0x4006);
}

#[test]
fn thread_of_an_exception_is_always_given() {
    for tier in [ExceptionChannelType::Job, ExceptionChannelType::Process, ExceptionChannelType::Thread] {
        let mut w = world();
        let tr = Rights::new(Rights::READ | Rights::INSPECT);
        let pr = Rights::new(Rights::WRITE);
        let e = w.sys.create_exception(w.thread, tier, tr, pr).unwrap();
        // a handle with no right at all is enough
        let he = w.sys.add_handle(Handle::new(e, Rights::empty()));
        let mut out: HandleValue = 0;
        assert_eq!(w.sys.sys_exception_get_thread(he, &mut out), Ok(()));
        assert_eq!(out, he + 1);
        assert_eq!(w.sys.get_dyn_object_and_rights(out), Ok((w.thread, tr)));
    }
}

#[test]
fn process_of_an_exception_is_hidden_from_thread_channels() {
    let tr = Rights::new(Rights::READ);
    let pr = Rights::new(Rights::WRITE | Rights::ENUMERATE);
    for tier in [ExceptionChannelType::Job, ExceptionChannelType::Process] {
        let mut w = world();
        let e = w.sys.create_exception(w.thread, tier, tr, pr).unwrap();
        let he = w.sys.add_handle(Handle::new(e, Rights::empty()));
        let mut out: HandleValue = 0;
        assert_eq!(w.sys.sys_exception_get_process(he, &mut out), Ok(()));
        assert_eq!(w.sys.get_dyn_object_and_rights(out), Ok((w.process, pr)));
    }
    let mut w = world();
    let e = w.sys.create_exception(w.thread, ExceptionChannelType::Thread, tr, pr).unwrap();
    let he = w.sys.add_handle(Handle::new(e, Rights::new(0xffff_ffff)));
    let mut out: HandleValue = 42;
    assert_eq!(w.sys.sys_exception_get_process(he, &mut out), Err(ZxError::AccessDenied));
    assert_eq!(out, 42);
    assert_eq!(w.sys.get_dyn_object_and_rights(he + 1).err(), Some(ZxError::WrongHandle));
}

#[test]
fn kind_is_checked_before_rights() {
    let mut w = world();
    let ht = w.sys.add_handle(Handle::new(w.thread, Rights::empty()));
    let want = Rights::new(Rights::READ);
    assert_eq!(
        w.sys.get_object_with_rights(ht, ObjectKind::Process, want).err(),
        Some(ZxError::WrongType)
    );
    assert_eq!(
        w.sys.get_object_with_rights(ht, ObjectKind::Thread, want).err(),
        Some(ZxError::AccessDenied)
    );
    assert_eq!(
        w.sys.get_object_with_rights(ht + 1, ObjectKind::Thread, want).err(),
        Some(ZxError::WrongHandle)
    );
    let (id, object) = w.sys.get_object_with_rights(ht, ObjectKind::Thread, Rights::empty()).unwrap();
    assert_eq!(id, w.thread);
    assert!(matches!(object, KernelObject::Thread(_)));
}

#[test]
fn closing_the_channel_unbinds_the_exceptionate() {
    let mut w = world();
    let hp = w.sys.add_handle(Handle::new(w.process, full()));
    let user_end = create(&mut w.sys, hp, 0).unwrap();
    let (channel, rights) = w.sys.get_dyn_object_and_rights(user_end).unwrap();
    assert_eq!(create(&mut w.sys, hp, 0), Err(ZxError::AlreadyBound));
    // a second handle keeps the channel open
    let copy = w.sys.add_handle(Handle::new(channel, rights));
    assert_eq!(w.sys.close_handle(user_end), Ok(()));
    assert_eq!(w.sys.get_dyn_object_and_rights(user_end).err(), Some(ZxError::WrongHandle));
    assert!(exceptionate(&w.sys, w.process, ExceptionChannelOption::Normal).is_bound());
    assert_eq!(create(&mut w.sys, hp, 0), Err(ZxError::AlreadyBound));
    // closing the last one frees the exceptionate, which keeps its masks
    assert_eq!(w.sys.close_handle(copy), Ok(()));
    let free = exceptionate(&w.sys, w.process, ExceptionChannelOption::Normal);
    assert_eq!(free.channel, None);
    assert_eq!(free.thread_rights.bits(), Rights::DEFAULT_THREAD);
    assert_eq!(w.sys.close_handle(copy), Err(ZxError::WrongHandle));
    let again = create(&mut w.sys, hp, 0).unwrap();
    assert!(again != user_end && again != copy);
    let (second, _) = w.sys.get_dyn_object_and_rights(again).unwrap();
    assert!(second != channel);
    assert_eq!(
        exceptionate(&w.sys, w.process, ExceptionChannelOption::Normal).channel,
        Some(second)
    );
    // closing a handle to a task changes no exceptionate
    assert_eq!(w.sys.close_handle(hp), Ok(()));
    assert!(exceptionate(&w.sys, w.process, ExceptionChannelOption::Normal).is_bound());
}

#[test]
fn closing_a_stale_channel_leaves_the_new_binding() {
    let mut w = world();
    let ht = w.sys.add_handle(Handle::new(w.thread, full()));
    let first = create(&mut w.sys, ht, 0).unwrap();
    let (old_channel, rights) = w.sys.get_dyn_object_and_rights(first).unwrap();
    assert_eq!(w.sys.close_handle(first), Ok(()));
    let second = create(&mut w.sys, ht, 0).unwrap();
    let (new_channel, _) = w.sys.get_dyn_object_and_rights(second).unwrap();
    // a handle to the closed channel, made and closed again
    let stale = w.sys.add_handle(Handle::new(old_channel, rights));
    assert_eq!(w.sys.close_handle(stale), Ok(()));
    assert_eq!(
        exceptionate(&w.sys, w.thread, ExceptionChannelOption::Normal).channel,
        Some(new_channel)
    );
}
