//! Kernel objects: a closed set of kinds behind one type, with a checked
//! downcast to each kind, and the exceptionates that task-like objects own.

use vstd::prelude::*;
use crate::error::ZxError;
use crate::rights::Rights;

verus! {

/// The identity of a kernel object: its position in the object table.
pub type KoId = usize;

/// Which of a task's exceptionates is meant: the normal one (written 0) or
/// the debugger's (written 1).
#[derive(Clone, Copy, Debug, PartialEq, Eq, Structural)]
pub enum ExceptionChannelOption {
    Normal,
    Debugger,
}

/// The tier of the task hierarchy that is handling an exception.
#[derive(Clone, Copy, Debug, PartialEq, Eq, Structural)]
pub enum ExceptionChannelType {
    Job,
    Process,
    Thread,
}

/// The kinds of kernel object.
#[derive(Clone, Copy, Debug, PartialEq, Eq, Structural)]
pub enum ObjectKind {
    Job,
    Process,
    Thread,
    Channel,
    Exception,
}

/// The exception-routing endpoint of a job, process or thread. It is bound to
/// at most one channel at a time, and remembers the rights to hand out with
/// the thread and the process of an exception that goes through that channel.
#[derive(Clone, Copy, Debug)]
pub struct Exceptionate {
    pub channel: Option<KoId>,
    pub thread_rights: Rights,
    pub process_rights: Rights,
}

impl Exceptionate {
    pub open spec fn spec_is_bound(&self) -> bool {
        self.channel is Some
    }

    /// What `create_channel` leaves behind when it succeeds.
    pub open spec fn bound_to(channel: KoId, thread_rights: Rights, process_rights: Rights)
        -> Exceptionate {
        Exceptionate { channel: Some(channel), thread_rights, process_rights }
    }

    /// An exceptionate with no channel.
    pub fn new() -> (r: Exceptionate)
        ensures
            !r.spec_is_bound(),
            r.thread_rights.bits == 0,
            r.process_rights.bits == 0,
    {
        Exceptionate { channel: None, thread_rights: Rights::empty(), process_rights: Rights::empty() }
    }

    #[verifier::when_used_as_spec(spec_is_bound)]
    pub fn is_bound(&self) -> (r: bool)
        ensures
            r == self.spec_is_bound(),
    {
        self.channel.is_some()
    }

    /// Binds the endpoint `channel` and stores the two rights masks. An
    /// exceptionate that is bound already refuses, and stays as it was.
    pub fn create_channel(&mut self, channel: KoId, thread_rights: Rights, process_rights: Rights)
        -> (r: Result<KoId, ZxError>)
        ensures
            old(self).spec_is_bound() ==> r == Err::<KoId, ZxError>(ZxError::AlreadyBound)
                && *final(self) == *old(self),
            !old(self).spec_is_bound() ==> r == Ok::<KoId, ZxError>(channel)
                && *final(self) == Exceptionate::bound_to(channel, thread_rights, process_rights),
    {
        if self.channel.is_some() {
            return Err(ZxError::AlreadyBound);
        }
        self.channel = Some(channel);
        self.thread_rights = thread_rights;
        self.process_rights = process_rights;
        Ok(channel)
    }
}

/// A job: a group of processes and of further jobs.
#[derive(Clone, Copy, Debug)]
pub struct Job {
    /// The job that holds this one; the root job has none.
    pub parent: Option<KoId>,
    pub exceptionate: Exceptionate,
    pub debug_exceptionate: Exceptionate,
}

impl Job {
    pub fn get_exceptionate(&self) -> (r: Exceptionate)
        ensures
            r == self.exceptionate,
    {
        self.exceptionate
    }

    pub fn get_debug_exceptionate(&self) -> (r: Exceptionate)
        ensures
            r == self.debug_exceptionate,
    {
        self.debug_exceptionate
    }
}

/// A process: a group of threads.
#[derive(Clone, Copy, Debug)]
pub struct Process {
    /// The job that holds this process.
    pub job: KoId,
    pub exceptionate: Exceptionate,
    pub debug_exceptionate: Exceptionate,
}

impl Process {
    pub fn get_exceptionate(&self) -> (r: Exceptionate)
        ensures
            r == self.exceptionate,
    {
        self.exceptionate
    }

    pub fn get_debug_exceptionate(&self) -> (r: Exceptionate)
        ensures
            r == self.debug_exceptionate,
    {
        self.debug_exceptionate
    }
}

/// A thread. It has no exceptionate for a debugger.
#[derive(Clone, Copy, Debug)]
pub struct Thread {
    /// The process that holds this thread.
    pub process: KoId,
    pub exceptionate: Exceptionate,
}

impl Thread {
    pub fn get_exceptionate(&self) -> (r: Exceptionate)
        ensures
            r == self.exceptionate,
    {
        self.exceptionate
    }
}

/// The user's end of an exception channel.
#[derive(Clone, Copy, Debug)]
pub struct Channel {
    /// The task whose exceptionate the channel was made for.
    pub owner: KoId,
    /// Which of that task's exceptionates.
    pub option: ExceptionChannelOption,
}

/// An exception in flight: the thread that raised it, the process of that
/// thread, the rights to hand out with each, and the tier that handles it now.
#[derive(Clone, Copy, Debug)]
pub struct Exception {
    pub thread: KoId,
    pub thread_rights: Rights,
    pub process: KoId,
    pub process_rights: Rights,
    pub current_channel_type: ExceptionChannelType,
}

impl Exception {
    pub fn get_thread_and_rights(&self) -> (r: (KoId, Rights))
        ensures
            r == (self.thread, self.thread_rights),
    {
        (self.thread, self.thread_rights)
    }

    pub fn get_process_and_rights(&self) -> (r: (KoId, Rights))
        ensures
            r == (self.process, self.process_rights),
    {
        (self.process, self.process_rights)
    }

    pub fn get_current_channel_type(&self) -> (r: ExceptionChannelType)
        ensures
            r == self.current_channel_type,
    {
        self.current_channel_type
    }
}

/// The kernel object that stands for an exception in flight.
#[derive(Clone, Copy, Debug)]
pub struct ExceptionObject {
    pub exception: Exception,
}

impl ExceptionObject {
    pub fn get_exception(&self) -> (r: Exception)
        ensures
            r == self.exception,
    {
        self.exception
    }
}

/// A kernel object of any kind.
#[derive(Clone, Copy, Debug)]
pub enum KernelObject {
    Job(Job),
    Process(Process),
    Thread(Thread),
    Channel(Channel),
    Exception(ExceptionObject),
}

impl KernelObject {
    pub open spec fn spec_kind(&self) -> ObjectKind {
        match *self {
            KernelObject::Job(_) => ObjectKind::Job,
            KernelObject::Process(_) => ObjectKind::Process,
            KernelObject::Thread(_) => ObjectKind::Thread,
            KernelObject::Channel(_) => ObjectKind::Channel,
            KernelObject::Exception(_) => ObjectKind::Exception,
        }
    }

    /// Whether an object of this kind owns the exceptionate that `option` names.
    pub open spec fn has_exceptionate(self, option: ExceptionChannelOption) -> bool {
        match self {
            KernelObject::Job(_) => true,
            KernelObject::Process(_) => true,
            KernelObject::Thread(_) => option == ExceptionChannelOption::Normal,
            _ => false,
        }
    }

    /// The exceptionate that `option` names, where the object owns it.
    pub open spec fn exceptionate(self, option: ExceptionChannelOption) -> Exceptionate
        recommends
            self.has_exceptionate(option),
    {
        match self {
            KernelObject::Job(job) => match option {
                ExceptionChannelOption::Normal => job.exceptionate,
                ExceptionChannelOption::Debugger => job.debug_exceptionate,
            },
            KernelObject::Process(process) => match option {
                ExceptionChannelOption::Normal => process.exceptionate,
                ExceptionChannelOption::Debugger => process.debug_exceptionate,
            },
            KernelObject::Thread(thread) => thread.exceptionate,
            _ => arbitrary(),
        }
    }

    /// The same object with the exceptionate that `option` names replaced;
    /// the object itself where it owns no such exceptionate.
    pub open spec fn spec_with_exceptionate(
        self,
        option: ExceptionChannelOption,
        exceptionate: Exceptionate,
    ) -> KernelObject {
        match self {
            KernelObject::Job(job) => match option {
                ExceptionChannelOption::Normal => KernelObject::Job(Job { exceptionate, ..job }),
                ExceptionChannelOption::Debugger => KernelObject::Job(
                    Job { debug_exceptionate: exceptionate, ..job },
                ),
            },
            KernelObject::Process(process) => match option {
                ExceptionChannelOption::Normal => KernelObject::Process(
                    Process { exceptionate, ..process },
                ),
                ExceptionChannelOption::Debugger => KernelObject::Process(
                    Process { debug_exceptionate: exceptionate, ..process },
                ),
            },
            KernelObject::Thread(thread) => match option {
                ExceptionChannelOption::Normal => KernelObject::Thread(
                    Thread { exceptionate, ..thread },
                ),
                ExceptionChannelOption::Debugger => self,
            },
            _ => self,
        }
    }

    #[verifier::when_used_as_spec(spec_kind)]
    pub fn kind(&self) -> (r: ObjectKind)
        ensures
            r == self.spec_kind(),
    {
        match self {
            KernelObject::Job(_) => ObjectKind::Job,
            KernelObject::Process(_) => ObjectKind::Process,
            KernelObject::Thread(_) => ObjectKind::Thread,
            KernelObject::Channel(_) => ObjectKind::Channel,
            KernelObject::Exception(_) => ObjectKind::Exception,
        }
    }

    /// The object as a job; `WrongType` when it is of another kind.
    pub fn downcast_job(&self) -> (r: Result<Job, ZxError>)
        ensures
            match *self {
                KernelObject::Job(job) => r == Ok::<Job, ZxError>(job),
                _ => r == Err::<Job, ZxError>(ZxError::WrongType),
            },
    {
        match self {
            KernelObject::Job(job) => Ok(*job),
            _ => Err(ZxError::WrongType),
        }
    }

    /// The object as a process; `WrongType` when it is of another kind.
    pub fn downcast_process(&self) -> (r: Result<Process, ZxError>)
        ensures
            match *self {
                KernelObject::Process(process) => r == Ok::<Process, ZxError>(process),
                _ => r == Err::<Process, ZxError>(ZxError::WrongType),
            },
    {
        match self {
            KernelObject::Process(process) => Ok(*process),
            _ => Err(ZxError::WrongType),
        }
    }

    /// The object as a thread; `WrongType` when it is of another kind.
    pub fn downcast_thread(&self) -> (r: Result<Thread, ZxError>)
        ensures
            match *self {
                KernelObject::Thread(thread) => r == Ok::<Thread, ZxError>(thread),
                _ => r == Err::<Thread, ZxError>(ZxError::WrongType),
            },
    {
        match self {
            KernelObject::Thread(thread) => Ok(*thread),
            _ => Err(ZxError::WrongType),
        }
    }

    /// The object as a channel; `WrongType` when it is of another kind.
    pub fn downcast_channel(&self) -> (r: Result<Channel, ZxError>)
        ensures
            match *self {
                KernelObject::Channel(channel) => r == Ok::<Channel, ZxError>(channel),
                _ => r == Err::<Channel, ZxError>(ZxError::WrongType),
            },
    {
        match self {
            KernelObject::Channel(channel) => Ok(*channel),
            _ => Err(ZxError::WrongType),
        }
    }

    /// The object as an exception; `WrongType` when it is of another kind.
    pub fn downcast_exception(&self) -> (r: Result<ExceptionObject, ZxError>)
        ensures
            match *self {
                KernelObject::Exception(exception) => r == Ok::<ExceptionObject, ZxError>(
                    exception,
                ),
                _ => r == Err::<ExceptionObject, ZxError>(ZxError::WrongType),
            },
    {
        match self {
            KernelObject::Exception(exception) => Ok(*exception),
            _ => Err(ZxError::WrongType),
        }
    }

    /// The exceptionate that `option` names, where the object owns it.
    pub fn get_exceptionate(&self, option: ExceptionChannelOption) -> (r: Option<Exceptionate>)
        ensures
            r is Some <==> self.has_exceptionate(option),
            r is Some ==> r->0 == self.exceptionate(option),
    {
        match self {
            KernelObject::Job(job) => match option {
                ExceptionChannelOption::Normal => Some(job.get_exceptionate()),
                ExceptionChannelOption::Debugger => Some(job.get_debug_exceptionate()),
            },
            KernelObject::Process(process) => match option {
                ExceptionChannelOption::Normal => Some(process.get_exceptionate()),
                ExceptionChannelOption::Debugger => Some(process.get_debug_exceptionate()),
            },
            KernelObject::Thread(thread) => match option {
                ExceptionChannelOption::Normal => Some(thread.get_exceptionate()),
                ExceptionChannelOption::Debugger => None,
            },
            _ => None,
        }
    }

    /// The same object with the exceptionate that `option` names replaced.
    pub fn with_exceptionate(self, option: ExceptionChannelOption, exceptionate: Exceptionate)
        -> (r: KernelObject)
        ensures
            r == self.spec_with_exceptionate(option, exceptionate),
    {
        match self {
            KernelObject::Job(job) => match option {
                ExceptionChannelOption::Normal => KernelObject::Job(
                    Job { parent: job.parent, exceptionate, debug_exceptionate: job.debug_exceptionate },
                ),
                ExceptionChannelOption::Debugger => KernelObject::Job(
                    Job { parent: job.parent, exceptionate: job.exceptionate, debug_exceptionate: exceptionate },
                ),
            },
            KernelObject::Process(process) => match option {
                ExceptionChannelOption::Normal => KernelObject::Process(
                    Process { job: process.job, exceptionate, debug_exceptionate: process.debug_exceptionate },
                ),
                ExceptionChannelOption::Debugger => KernelObject::Process(
                    Process { job: process.job, exceptionate: process.exceptionate, debug_exceptionate: exceptionate },
                ),
            },
            KernelObject::Thread(thread) => match option {
                ExceptionChannelOption::Normal => KernelObject::Thread(
                    Thread { process: thread.process, exceptionate },
                ),
                ExceptionChannelOption::Debugger => self,
            },
            _ => self,
        }
    }
}

} // verus!
