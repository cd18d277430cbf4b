//! The system calls on exception channels and on exceptions in flight.

use vstd::prelude::*;
use crate::error::ZxError;
use crate::grant::{
    exception_channel_grant, exception_process_grant, spec_exception_channel_grant,
    spec_exception_process_grant,
};
use crate::handle::{Handle, HandleValue};
use crate::object::{KoId, ObjectKind};
use crate::rights::Rights;
use crate::state::State;
use crate::syscall::Syscall;

verus! {

impl State {
    /// What making an exception channel for the task behind `task` does: the
    /// value of the caller's new handle and the state afterwards, or the
    /// error. The handle is resolved, the grant is decided, and the
    /// exceptionate must be unbound; the first of these to fail decides.
    pub open spec fn create_exception_channel(self, task: HandleValue, option: u32) -> Result<
        (HandleValue, State),
        ZxError,
    > {
        match self.resolve(task) {
            Err(e) => Err(e),
            Ok(handle) => match spec_exception_channel_grant(
                handle.rights,
                option,
                self.objects[handle.object as int].spec_kind(),
            ) {
                Err(e) => Err(e),
                Ok(grant) => if self.exceptionate(handle.object, grant.option).spec_is_bound() {
                    Err(ZxError::AlreadyBound)
                } else {
                    Ok(
                        (
                            self.next_handle as HandleValue,
                            self.with_channel(
                                handle.object,
                                grant.option,
                                grant.thread_rights,
                                grant.process_rights,
                            ).with_handle(
                                Handle {
                                    object: self.objects.len() as KoId,
                                    rights: grant.handle_rights,
                                },
                            ),
                        ),
                    )
                },
            },
        }
    }

    /// The exception behind the handle `exception`: `WrongHandle` when there
    /// is no such handle, `WrongType` when it names another kind of object.
    /// No right is asked of the handle.
    pub open spec fn exception_of(self, exception: HandleValue) -> Result<
        crate::object::Exception,
        ZxError,
    > {
        match self.object_with_rights(exception, ObjectKind::Exception, Rights { bits: 0 }) {
            Err(e) => Err(e),
            Ok(id) => Ok(self.objects[id as int]->Exception_0.exception),
        }
    }

    /// What asking an exception for its thread does: a new handle to the
    /// thread with the rights that the exception holds for it.
    pub open spec fn exception_get_thread(self, exception: HandleValue) -> Result<
        (HandleValue, State),
        ZxError,
    > {
        match self.exception_of(exception) {
            Err(e) => Err(e),
            Ok(e) => Ok(
                (
                    self.next_handle as HandleValue,
                    self.with_handle(Handle { object: e.thread, rights: e.thread_rights }),
                ),
            ),
        }
    }

    /// What asking an exception for its process does: `AccessDenied` while a
    /// thread's channel handles the exception, else a new handle to the
    /// process with the rights that the exception holds for it.
    pub open spec fn exception_get_process(self, exception: HandleValue) -> Result<
        (HandleValue, State),
        ZxError,
    > {
        match self.exception_of(exception) {
            Err(e) => Err(e),
            Ok(e) => match spec_exception_process_grant(e.current_channel_type) {
                Err(refused) => Err(refused),
                Ok(_) => Ok(
                    (
                        self.next_handle as HandleValue,
                        self.with_handle(Handle { object: e.process, rights: e.process_rights }),
                    ),
                ),
            },
        }
    }
}

impl Syscall {
    /// Creates a channel which will receive exceptions from the thread,
    /// process or job that the handle `task` names, and writes the value of
    /// the caller's handle to it into `out`. On an error nothing changes.
    pub fn sys_create_exception_channel(
        &mut self,
        task: HandleValue,
        option: u32,
        out: &mut HandleValue,
    ) -> (r: Result<(), ZxError>)
        requires
            old(self).wf(),
            old(self)@.has_room(),
        ensures
            final(self).wf(),
            match old(self)@.create_exception_channel(task, option) {
                Ok((value, state)) => r == Ok::<(), ZxError>(()) && *final(out) == value
                    && final(self)@ == state,
                Err(e) => r == Err::<(), ZxError>(e) && *final(out) == *old(out) && final(self)@
                    == old(self)@,
            },
    {
        let (task, rights) = match self.get_dyn_object_and_rights(task) {
            Ok(found) => found,
            Err(e) => {
                return Err(e);
            },
        };
        let kind = self.object_at(task).kind();
        let grant = match exception_channel_grant(rights, option, kind) {
            Ok(grant) => grant,
            Err(e) => {
                return Err(e);
            },
        };
        let channel = match self.create_channel(
            task,
            grant.option,
            grant.thread_rights,
            grant.process_rights,
        ) {
            Ok(channel) => channel,
            Err(e) => {
                return Err(e);
            },
        };
        let user_end = self.add_handle(Handle::new(channel, grant.handle_rights));
        *out = user_end;
        Ok(())
    }

    /// Creates a handle for the exception's thread and writes its value into
    /// `out`. On an error nothing changes.
    pub fn sys_exception_get_thread(&mut self, exception: HandleValue, out: &mut HandleValue) -> (r:
        Result<(), ZxError>)
        requires
            old(self).wf(),
            old(self)@.has_room(),
        ensures
            final(self).wf(),
            match old(self)@.exception_get_thread(exception) {
                Ok((value, state)) => r == Ok::<(), ZxError>(()) && *final(out) == value
                    && final(self)@ == state,
                Err(e) => r == Err::<(), ZxError>(e) && *final(out) == *old(out) && final(self)@
                    == old(self)@,
            },
    {
        let (id, found) = match self.get_object_with_rights(
            exception,
            ObjectKind::Exception,
            Rights::default(),
        ) {
            Ok(found) => found,
            Err(e) => {
                return Err(e);
            },
        };
        let exception = match found.downcast_exception() {
            Ok(exception) => exception,
            Err(e) => {
                return Err(e);
            },
        };
        proof {
            self.lemma_wf();
            assert(crate::state::object_wf(self@.objects, id as int));
        }
        let (object, right) = exception.get_exception().get_thread_and_rights();
        let handle = self.add_handle(Handle::new(object, right));
        *out = handle;
        Ok(())
    }

    /// Creates a handle for the exception's process and writes its value into
    /// `out`. Only an exception that a job's or a process's channel handles
    /// gives its process: one that a thread's channel handles is refused with
    /// `AccessDenied`. On an error nothing changes.
    pub fn sys_exception_get_process(&mut self, exception: HandleValue, out: &mut HandleValue)
        -> (r: Result<(), ZxError>)
        requires
            old(self).wf(),
            old(self)@.has_room(),
        ensures
            final(self).wf(),
            match old(self)@.exception_get_process(exception) {
                Ok((value, state)) => r == Ok::<(), ZxError>(()) && *final(out) == value
                    && final(self)@ == state,
                Err(e) => r == Err::<(), ZxError>(e) && *final(out) == *old(out) && final(self)@
                    == old(self)@,
            },
    {
        let (id, found) = match self.get_object_with_rights(
            exception,
            ObjectKind::Exception,
            Rights::default(),
        ) {
            Ok(found) => found,
            Err(e) => {
                return Err(e);
            },
        };
        let exception = match found.downcast_exception() {
            Ok(exception) => exception,
            Err(e) => {
                return Err(e);
            },
        };
        match exception_process_grant(exception.get_exception().get_current_channel_type()) {
            Ok(_) => {},
            Err(e) => {
                return Err(e);
            },
        }
        proof {
            self.lemma_wf();
            assert(crate::state::object_wf(self@.objects, id as int));
            let t = exception.exception.thread as int;
            assert(crate::state::object_wf(self@.objects, t));
        }
        let (object, right) = exception.get_exception().get_process_and_rights();
        let handle = self.add_handle(Handle::new(object, right));
        *out = handle;
        Ok(())
    }
}

} // verus!
