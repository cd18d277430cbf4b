//! The calling process's handle table and the kernel objects, as the system
//! calls hold them.

use vstd::prelude::*;
use crate::error::ZxError;
use crate::handle::{Handle, HandleTable, HandleValue};
use crate::object::{
    Channel, Exception, ExceptionChannelOption, ExceptionChannelType, ExceptionObject,
    Exceptionate, Job, KernelObject, KoId, ObjectKind, Process, Thread,
};
use crate::rights::Rights;
use crate::state::{
    lemma_close_handle_wf, lemma_with_channel_wf, lemma_with_handle_wf, lemma_with_object_wf,
    object_wf, State,
};

verus! {

/// The calling process's handle table together with the kernel objects: what
/// the system calls of this crate read and change.
pub struct Syscall {
    handles: HandleTable,
    objects: Vec<KernelObject>,
}

impl View for Syscall {
    type V = State;

    closed spec fn view(&self) -> State {
        State {
            handles: self.handles@,
            next_handle: self.handles.next_value(),
            objects: self.objects@,
        }
    }
}

impl Syscall {
    /// The state is well formed, and so is its representation.
    pub closed spec fn wf(&self) -> bool {
        &&& self.handles.wf()
        &&& self@.wf()
    }

    /// In a well-formed `Syscall` the state is well formed.
    pub proof fn lemma_wf(&self)
        requires
            self.wf(),
        ensures
            self@.wf(),
    {
    }

    /// A process with no handle, in a kernel with no object.
    pub fn new() -> (r: Syscall)
        ensures
            r.wf(),
            r@.handles == Map::<HandleValue, Handle>::empty(),
            r@.next_handle == 1,
            r@.objects == Seq::<KernelObject>::empty(),
    {
        Syscall { handles: HandleTable::new(), objects: Vec::new() }
    }

    /// Whether the handle table can still give out a value.
    pub fn has_room(&self) -> (r: bool)
        requires
            self.wf(),
        ensures
            r == self@.has_room(),
    {
        self.handles.has_room()
    }

    /// How many kernel objects there are; their identities are the numbers
    /// below this one.
    pub fn object_count(&self) -> (r: usize)
        ensures
            r == self@.objects.len(),
    {
        self.objects.len()
    }

    /// The object `id`.
    pub fn object_at(&self, id: KoId) -> (r: KernelObject)
        requires
            id < self@.objects.len(),
        ensures
            r == self@.objects[id as int],
    {
        self.objects[id]
    }

    /// The object `id`, if there is one.
    pub fn object(&self, id: KoId) -> (r: Option<KernelObject>)
        ensures
            r == if id < self@.objects.len() {
                Some(self@.objects[id as int])
            } else {
                None
            },
    {
        if id < self.objects.len() {
            Some(self.objects[id])
        } else {
            None
        }
    }

    fn push_object(&mut self, object: KernelObject) -> (r: KoId)
        requires
            old(self).wf(),
            object_wf(old(self)@.objects.push(object), old(self)@.objects.len() as int),
        ensures
            final(self).wf(),
            r == old(self)@.objects.len(),
            final(self)@ == old(self)@.with_object(object),
    {
        let id = self.objects.len();
        self.objects.push(object);
        let count: usize = self.objects.len();
        proof {
            assert(count == old(self)@.objects.len() + 1);
            lemma_with_object_wf(old(self)@, object);
        }
        id
    }

    /// Makes a job inside `parent`, or a root job, with both exceptionates
    /// unbound, and returns its identity. `WrongType` when `parent` is no job.
    pub fn create_job(&mut self, parent: Option<KoId>) -> (r: Result<KoId, ZxError>)
        requires
            old(self).wf(),
        ensures
            final(self).wf(),
            match r {
                Ok(id) => {
                    &&& parent matches Some(p) ==> p < old(self)@.objects.len()
                        && old(self)@.objects[p as int] is Job
                    &&& id == old(self)@.objects.len()
                    &&& final(self)@.objects.len() == id + 1
                    &&& final(self)@.objects[id as int] matches KernelObject::Job(job)
                    &&& job.parent == parent
                    &&& !job.exceptionate.spec_is_bound()
                    &&& !job.debug_exceptionate.spec_is_bound()
                    &&& final(self)@ == old(self)@.with_object(final(self)@.objects[id as int])
                },
                Err(e) => {
                    &&& e == ZxError::WrongType
                    &&& parent matches Some(p)
                    &&& !(p < old(self)@.objects.len() && old(self)@.objects[p as int] is Job)
                    &&& final(self)@ == old(self)@
                },
            },
    {
        match parent {
            Some(p) => {
                if p >= self.objects.len() {
                    return Err(ZxError::WrongType);
                }
                match self.objects[p].downcast_job() {
                    Ok(_) => {},
                    Err(e) => {
                        return Err(e);
                    },
                }
            },
            None => {},
        }
        let job = KernelObject::Job(
            Job { parent, exceptionate: Exceptionate::new(), debug_exceptionate: Exceptionate::new() },
        );
        Ok(self.push_object(job))
    }

    /// Makes a process inside the job `job`, with both exceptionates unbound,
    /// and returns its identity. `WrongType` when `job` is no job.
    pub fn create_process(&mut self, job: KoId) -> (r: Result<KoId, ZxError>)
        requires
            old(self).wf(),
        ensures
            final(self).wf(),
            match r {
                Ok(id) => {
                    &&& job < old(self)@.objects.len()
                    &&& old(self)@.objects[job as int] is Job
                    &&& id == old(self)@.objects.len()
                    &&& final(self)@.objects.len() == id + 1
                    &&& final(self)@.objects[id as int] matches KernelObject::Process(process)
                    &&& process.job == job
                    &&& !process.exceptionate.spec_is_bound()
                    &&& !process.debug_exceptionate.spec_is_bound()
                    &&& final(self)@ == old(self)@.with_object(final(self)@.objects[id as int])
                },
                Err(e) => {
                    &&& e == ZxError::WrongType
                    &&& !(job < old(self)@.objects.len() && old(self)@.objects[job as int] is Job)
                    &&& final(self)@ == old(self)@
                },
            },
    {
        if job >= self.objects.len() {
            return Err(ZxError::WrongType);
        }
        match self.objects[job].downcast_job() {
            Ok(_) => {},
            Err(e) => {
                return Err(e);
            },
        }
        let process = KernelObject::Process(
            Process { job, exceptionate: Exceptionate::new(), debug_exceptionate: Exceptionate::new() },
        );
        Ok(self.push_object(process))
    }

    /// Makes a thread inside the process `process`, with its exceptionate
    /// unbound, and returns its identity. `WrongType` when `process` is no
    /// process.
    pub fn create_thread(&mut self, process: KoId) -> (r: Result<KoId, ZxError>)
        requires
            old(self).wf(),
        ensures
            final(self).wf(),
            match r {
                Ok(id) => {
                    &&& process < old(self)@.objects.len()
                    &&& old(self)@.objects[process as int] is Process
                    &&& id == old(self)@.objects.len()
                    &&& final(self)@.objects.len() == id + 1
                    &&& final(self)@.objects[id as int] matches KernelObject::Thread(thread)
                    &&& thread.process == process
                    &&& !thread.exceptionate.spec_is_bound()
                    &&& final(self)@ == old(self)@.with_object(final(self)@.objects[id as int])
                },
                Err(e) => {
                    &&& e == ZxError::WrongType
                    &&& !(process < old(self)@.objects.len()
                        && old(self)@.objects[process as int] is Process)
                    &&& final(self)@ == old(self)@
                },
            },
    {
        if process >= self.objects.len() {
            return Err(ZxError::WrongType);
        }
        match self.objects[process].downcast_process() {
            Ok(_) => {},
            Err(e) => {
                return Err(e);
            },
        }
        let thread = KernelObject::Thread(Thread { process, exceptionate: Exceptionate::new() });
        Ok(self.push_object(thread))
    }

    /// Makes the object for an exception that the thread `thread` raised and
    /// that the tier `channel_type` handles, with the rights to hand out with
    /// the thread and with its process. `WrongType` when `thread` is no thread.
    pub fn create_exception(
        &mut self,
        thread: KoId,
        channel_type: ExceptionChannelType,
        thread_rights: Rights,
        process_rights: Rights,
    ) -> (r: Result<KoId, ZxError>)
        requires
            old(self).wf(),
        ensures
            final(self).wf(),
            match r {
                Ok(id) => {
                    &&& thread < old(self)@.objects.len()
                    &&& old(self)@.objects[thread as int] matches KernelObject::Thread(t)
                    &&& id == old(self)@.objects.len()
                    &&& final(self)@ == old(self)@.with_object(
                        KernelObject::Exception(
                            ExceptionObject {
                                exception: Exception {
                                    thread,
                                    thread_rights,
                                    process: t.process,
                                    process_rights,
                                    current_channel_type: channel_type,
                                },
                            },
                        ),
                    )
                },
                Err(e) => {
                    &&& e == ZxError::WrongType
                    &&& !(thread < old(self)@.objects.len()
                        && old(self)@.objects[thread as int] is Thread)
                    &&& final(self)@ == old(self)@
                },
            },
    {
        if thread >= self.objects.len() {
            return Err(ZxError::WrongType);
        }
        let process = match self.objects[thread].downcast_thread() {
            Ok(t) => t.process,
            Err(e) => {
                return Err(e);
            },
        };
        let object = KernelObject::Exception(
            ExceptionObject {
                exception: Exception {
                    thread,
                    thread_rights,
                    process,
                    process_rights,
                    current_channel_type: channel_type,
                },
            },
        );
        Ok(self.push_object(object))
    }

    /// Puts `handle` into the calling process's table and returns its value.
    pub fn add_handle(&mut self, handle: Handle) -> (r: HandleValue)
        requires
            old(self).wf(),
            old(self)@.has_room(),
            handle.object < old(self)@.objects.len(),
        ensures
            final(self).wf(),
            r == old(self)@.next_handle,
            !old(self)@.handles.contains_key(r),
            final(self)@ == old(self)@.with_handle(handle),
    {
        proof {
            lemma_with_handle_wf(self@, handle);
        }
        self.handles.add(handle)
    }

    /// The object that the handle `value` names and the rights granted on
    /// it; `WrongHandle` when the calling process has no such handle.
    pub fn get_dyn_object_and_rights(&self, value: HandleValue) -> (r: Result<
        (KoId, Rights),
        ZxError,
    >)
        requires
            self.wf(),
        ensures
            match self@.resolve(value) {
                Ok(handle) => r == Ok::<(KoId, Rights), ZxError>((handle.object, handle.rights))
                    && handle.object < self@.objects.len(),
                Err(e) => r == Err::<(KoId, Rights), ZxError>(e),
            },
    {
        match self.handles.get(value) {
            Ok(handle) => Ok((handle.object, handle.rights)),
            Err(e) => Err(e),
        }
    }

    /// The object that the handle `value` names, taken as one of `kind` and
    /// with the rights `desired` asked of the handle: `WrongHandle` when there
    /// is no such handle, else `WrongType` when the object is of another kind,
    /// else `AccessDenied` when the handle lacks one of the rights.
    pub fn get_object_with_rights(&self, value: HandleValue, kind: ObjectKind, desired: Rights)
        -> (r: Result<(KoId, KernelObject), ZxError>)
        requires
            self.wf(),
        ensures
            match self@.object_with_rights(value, kind, desired) {
                Ok(id) => id < self@.objects.len() && r == Ok::<(KoId, KernelObject), ZxError>(
                    (id, self@.objects[id as int]),
                ),
                Err(e) => r == Err::<(KoId, KernelObject), ZxError>(e),
            },
    {
        let handle = match self.handles.get(value) {
            Ok(handle) => handle,
            Err(e) => {
                return Err(e);
            },
        };
        let object = self.objects[handle.object];
        if object.kind() != kind {
            return Err(ZxError::WrongType);
        }
        match handle.rights.check(desired) {
            Ok(_) => {},
            Err(e) => {
                return Err(e);
            },
        }
        Ok((handle.object, object))
    }

    /// Asks the exceptionate that `option` names on the task `task` for a
    /// channel. An unbound exceptionate is bound to a new channel, remembers
    /// the two rights masks, and the identity of the channel is returned. A
    /// bound one refuses with `AlreadyBound`, and nothing changes.
    pub fn create_channel(
        &mut self,
        task: KoId,
        option: ExceptionChannelOption,
        thread_rights: Rights,
        process_rights: Rights,
    ) -> (r: Result<KoId, ZxError>)
        requires
            old(self).wf(),
            task < old(self)@.objects.len(),
            old(self)@.objects[task as int].has_exceptionate(option),
        ensures
            final(self).wf(),
            old(self)@.exceptionate(task, option).spec_is_bound() ==> r == Err::<KoId, ZxError>(
                ZxError::AlreadyBound,
            ) && final(self)@ == old(self)@,
            !old(self)@.exceptionate(task, option).spec_is_bound() ==> r == Ok::<KoId, ZxError>(
                old(self)@.objects.len() as KoId,
            ) && final(self)@ == old(self)@.with_channel(
                task,
                option,
                thread_rights,
                process_rights,
            ),
    {
        let object = self.objects[task];
        let mut exceptionate = object.get_exceptionate(option).unwrap();
        let channel = self.objects.len();
        match exceptionate.create_channel(channel, thread_rights, process_rights) {
            Ok(_) => {},
            Err(e) => {
                return Err(e);
            },
        }
        self.objects.set(task, object.with_exceptionate(option, exceptionate));
        self.objects.push(KernelObject::Channel(Channel { owner: task, option }));
        let count: usize = self.objects.len();
        proof {
            assert(count == old(self)@.objects.len() + 1);
            lemma_with_channel_wf(old(self)@, task, option, thread_rights, process_rights);
            assert(self@.objects =~= old(self)@.with_channel(
                task,
                option,
                thread_rights,
                process_rights,
            ).objects);
        }
        Ok(channel)
    }

    /// Closes the handle `value`: it leaves the table of the calling process.
    /// Where it was the last handle to the channel that an exceptionate is
    /// bound to, the exceptionate is unbound and can be given a new channel.
    /// `WrongHandle`, and no change, when there is no such handle.
    pub fn close_handle(&mut self, value: HandleValue) -> (r: Result<(), ZxError>)
        requires
            old(self).wf(),
        ensures
            final(self).wf(),
            match old(self)@.close_handle(value) {
                Ok(state) => r == Ok::<(), ZxError>(()) && final(self)@ == state,
                Err(e) => r == Err::<(), ZxError>(e) && final(self)@ == old(self)@,
            },
    {
        let handle = match self.handles.get(value) {
            Ok(handle) => handle,
            Err(e) => {
                return Err(e);
            },
        };
        proof {
            lemma_close_handle_wf(self@, value);
            assert(object_wf(self@.objects, handle.object as int));
        }
        let last = !self.handles.has_other_handle(value, handle.object);
        match self.handles.remove(value) {
            Ok(_) => {},
            Err(e) => {
                return Err(e);
            },
        }
        match self.objects[handle.object] {
            KernelObject::Channel(c) => {
                let owner = self.objects[c.owner];
                let held = owner.get_exceptionate(c.option).unwrap();
                let holds = match held.channel {
                    Some(channel) => channel == handle.object,
                    None => false,
                };
                if last && holds {
                    let unbound = Exceptionate {
                        channel: None,
                        thread_rights: held.thread_rights,
                        process_rights: held.process_rights,
                    };
                    self.objects.set(c.owner, owner.with_exceptionate(c.option, unbound));
                }
            },
            _ => {},
        }
        Ok(())
    }
}

} // verus!
