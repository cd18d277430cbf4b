//! The state that the system calls work on, as plain mathematics, and what
//! each change of it keeps true.

use vstd::prelude::*;
use crate::error::ZxError;
use crate::handle::{Handle, HandleTable, HandleValue};
use crate::object::{Channel, ExceptionChannelOption, Exceptionate, KernelObject, KoId, ObjectKind};
use crate::rights::Rights;

verus! {

/// What a system call sees, as plain mathematics: the handles of the calling
/// process by value, the value that the next handle will get, and the kernel
/// objects by identity.
pub struct State {
    pub handles: Map<HandleValue, Handle>,
    pub next_handle: int,
    pub objects: Seq<KernelObject>,
}

/// Whether the exceptionate `exceptionate`, which `option` names on the task
/// `owner`, is unbound or bound to a channel that was made for it.
pub open spec fn exceptionate_wf(
    objects: Seq<KernelObject>,
    owner: int,
    option: ExceptionChannelOption,
    exceptionate: Exceptionate,
) -> bool {
    exceptionate.channel matches Some(channel) ==> {
        &&& channel < objects.len()
        &&& objects[channel as int] matches KernelObject::Channel(c)
        &&& c.owner == owner
        &&& c.option == option
    }
}

/// Whether object `i` refers only to objects that exist, are older than it
/// and are of the kind it takes them for.
pub open spec fn object_wf(objects: Seq<KernelObject>, i: int) -> bool {
    match objects[i] {
        KernelObject::Job(job) => {
            &&& job.parent matches Some(parent) ==> parent < i && objects[parent as int] is Job
            &&& exceptionate_wf(objects, i, ExceptionChannelOption::Normal, job.exceptionate)
            &&& exceptionate_wf(
                objects,
                i,
                ExceptionChannelOption::Debugger,
                job.debug_exceptionate,
            )
        },
        KernelObject::Process(process) => {
            &&& process.job < i
            &&& objects[process.job as int] is Job
            &&& exceptionate_wf(objects, i, ExceptionChannelOption::Normal, process.exceptionate)
            &&& exceptionate_wf(
                objects,
                i,
                ExceptionChannelOption::Debugger,
                process.debug_exceptionate,
            )
        },
        KernelObject::Thread(thread) => {
            &&& thread.process < i
            &&& objects[thread.process as int] is Process
            &&& exceptionate_wf(objects, i, ExceptionChannelOption::Normal, thread.exceptionate)
        },
        KernelObject::Channel(channel) => {
            &&& channel.owner < i
            &&& objects[channel.owner as int].has_exceptionate(channel.option)
        },
        KernelObject::Exception(object) => {
            &&& object.exception.thread < i
            &&& objects[object.exception.thread as int] matches KernelObject::Thread(thread)
            &&& thread.process == object.exception.process
        },
    }
}

impl State {
    /// Every handle names an object that exists and has a value in use below
    /// the next one; every object is well formed.
    pub open spec fn wf(self) -> bool {
        &&& 1 <= self.next_handle <= HandleTable::CAPACITY + 1
        &&& self.objects.len() <= usize::MAX
        &&& forall|value: HandleValue| #[trigger]
            self.handles.contains_key(value) ==> 1 <= value < self.next_handle
                && self.handles[value].object < self.objects.len()
        &&& forall|i: int| 0 <= i < self.objects.len() ==> #[trigger] object_wf(self.objects, i)
    }

    /// Whether the handle table can still give out a value.
    pub open spec fn has_room(self) -> bool {
        self.next_handle <= HandleTable::CAPACITY
    }

    /// The state after `handle` was added to the handle table.
    pub open spec fn with_handle(self, handle: Handle) -> State {
        State {
            handles: self.handles.insert(self.next_handle as HandleValue, handle),
            next_handle: self.next_handle + 1,
            objects: self.objects,
        }
    }

    /// The state after `object` came into being.
    pub open spec fn with_object(self, object: KernelObject) -> State {
        State { objects: self.objects.push(object), ..self }
    }

    /// The state after object `id` was replaced by `object`.
    pub open spec fn with_object_at(self, id: KoId, object: KernelObject) -> State {
        State { objects: self.objects.update(id as int, object), ..self }
    }

    /// What resolving `value` gives: the handle of that name, or `WrongHandle`.
    pub open spec fn resolve(self, value: HandleValue) -> Result<Handle, ZxError> {
        if self.handles.contains_key(value) {
            Ok(self.handles[value])
        } else {
            Err(ZxError::WrongHandle)
        }
    }

    /// What asking for the object behind `value` as one of `kind`, with the
    /// rights `desired`, gives. The kind is checked before the rights.
    pub open spec fn object_with_rights(self, value: HandleValue, kind: ObjectKind, desired: Rights)
        -> Result<KoId, ZxError> {
        match self.resolve(value) {
            Err(e) => Err(e),
            Ok(handle) => if self.objects[handle.object as int].spec_kind() != kind {
                Err(ZxError::WrongType)
            } else if !handle.rights.spec_contains(desired) {
                Err(ZxError::AccessDenied)
            } else {
                Ok(handle.object)
            },
        }
    }

    /// The exceptionate that `option` names on the task `task`.
    pub open spec fn exceptionate(self, task: KoId, option: ExceptionChannelOption)
        -> Exceptionate
        recommends
            task < self.objects.len(),
            self.objects[task as int].has_exceptionate(option),
    {
        self.objects[task as int].exceptionate(option)
    }

    /// The state after the exceptionate that `option` names on `task` was
    /// replaced by `exceptionate`.
    pub open spec fn with_exceptionate(
        self,
        task: KoId,
        option: ExceptionChannelOption,
        exceptionate: Exceptionate,
    ) -> State {
        self.with_object_at(
            task,
            self.objects[task as int].spec_with_exceptionate(option, exceptionate),
        )
    }

    /// The state after the exceptionate that `option` names on `task` was
    /// bound to a new channel: the channel is the youngest object, and the
    /// exceptionate holds it with the two rights masks.
    pub open spec fn with_channel(
        self,
        task: KoId,
        option: ExceptionChannelOption,
        thread_rights: Rights,
        process_rights: Rights,
    ) -> State {
        self.with_object(KernelObject::Channel(Channel { owner: task, option })).with_exceptionate(
            task,
            option,
            Exceptionate::bound_to(self.objects.len() as KoId, thread_rights, process_rights),
        )
    }

    /// Whether a handle other than `value` names the object `object`.
    pub open spec fn has_other_handle(self, value: HandleValue, object: KoId) -> bool {
        exists|other: HandleValue|
            other != value && #[trigger] self.handles.contains_key(other)
                && self.handles[other].object == object
    }

    /// Whether closing the handle `value` closes the channel that an
    /// exceptionate is bound to: the handle is the last one that names the
    /// channel, and the exceptionate that the channel was made for still
    /// holds it.
    pub open spec fn closes_bound_channel(self, value: HandleValue) -> bool {
        &&& self.handles.contains_key(value)
        &&& self.objects[self.handles[value].object as int] matches KernelObject::Channel(c)
        &&& !self.has_other_handle(value, self.handles[value].object)
        &&& self.exceptionate(c.owner, c.option).channel == Some(self.handles[value].object)
    }

    /// The exceptionate `exceptionate` without its channel.
    pub open spec fn unbound(exceptionate: Exceptionate) -> Exceptionate {
        Exceptionate { channel: None, ..exceptionate }
    }

    /// What closing the handle `value` does: the handle leaves the table, and
    /// where that closes the channel of an exceptionate, the exceptionate is
    /// unbound. `WrongHandle` when there is no such handle.
    pub open spec fn close_handle(self, value: HandleValue) -> Result<State, ZxError> {
        if !self.handles.contains_key(value) {
            Err(ZxError::WrongHandle)
        } else {
            let removed = State { handles: self.handles.remove(value), ..self };
            if self.closes_bound_channel(value) {
                let c = self.objects[self.handles[value].object as int]->Channel_0;
                Ok(
                    removed.with_exceptionate(
                        c.owner,
                        c.option,
                        State::unbound(self.exceptionate(c.owner, c.option)),
                    ),
                )
            } else {
                Ok(removed)
            }
        }
    }
}

/// A well-formed state stays well formed when a handle to one of its objects
/// is added.
pub proof fn lemma_with_handle_wf(state: State, handle: Handle)
    requires
        state.wf(),
        state.has_room(),
        handle.object < state.objects.len(),
    ensures
        state.with_handle(handle).wf(),
        !state.handles.contains_key(state.next_handle as HandleValue),
{
    let after = state.with_handle(handle);
    assert forall|value: HandleValue| #[trigger] after.handles.contains_key(value) implies 1
        <= value < after.next_handle && after.handles[value].object < after.objects.len() by {
        if value != state.next_handle as HandleValue {
            assert(state.handles.contains_key(value));
        }
    }
    if state.handles.contains_key(state.next_handle as HandleValue) {
        assert(false);
    }
}

/// A well-formed state stays well formed when an object that is itself well
/// formed at the end of the table comes into being.
pub proof fn lemma_with_object_wf(state: State, object: KernelObject)
    requires
        state.wf(),
        state.objects.len() < usize::MAX,
        object_wf(state.objects.push(object), state.objects.len() as int),
    ensures
        state.with_object(object).wf(),
{
    let after = state.with_object(object);
    assert forall|i: int| 0 <= i < after.objects.len() implies #[trigger] object_wf(
        after.objects,
        i,
    ) by {
        if i < state.objects.len() {
            assert(object_wf(state.objects, i));
        }
    }
    assert forall|value: HandleValue| #[trigger] after.handles.contains_key(value) implies 1
        <= value < after.next_handle && after.handles[value].object < after.objects.len() by {
        assert(state.handles.contains_key(value));
    }
}

/// A well-formed state stays well formed when an exceptionate of one of its
/// tasks is replaced by one that is unbound, or bound to a channel that was
/// made for it. The exceptionate is then the new one; every other
/// exceptionate, the kind of every object and every handle are as they were.
pub proof fn lemma_with_exceptionate_wf(
    state: State,
    task: KoId,
    option: ExceptionChannelOption,
    exceptionate: Exceptionate,
)
    requires
        state.wf(),
        task < state.objects.len(),
        state.objects[task as int].has_exceptionate(option),
        exceptionate_wf(state.objects, task as int, option, exceptionate),
    ensures
        state.with_exceptionate(task, option, exceptionate).wf(),
        state.with_exceptionate(task, option, exceptionate).exceptionate(task, option)
            == exceptionate,
        forall|other: KoId, o: ExceptionChannelOption|
            other < state.objects.len() && (other != task || o != option) && state.objects[other as int].has_exceptionate(o)
                ==> #[trigger] state.with_exceptionate(task, option, exceptionate).exceptionate(
                other,
                o,
            ) == state.exceptionate(other, o),
        forall|j: int|
            0 <= j < state.objects.len() ==> (#[trigger] state.with_exceptionate(
                task,
                option,
                exceptionate,
            ).objects[j]).spec_kind() == state.objects[j].spec_kind(),
        forall|j: int|
            0 <= j < state.objects.len() && j != task ==> #[trigger] state.with_exceptionate(
                task,
                option,
                exceptionate,
            ).objects[j] == state.objects[j],
{
    let after = state.with_exceptionate(task, option, exceptionate);
    let before = state.objects;
    let n = before.len() as int;
    let target = before[task as int];
    let changed = target.spec_with_exceptionate(option, exceptionate);
    assert(after.objects.len() == n);
    assert(after.objects[task as int] == changed);
    assert(changed.spec_kind() == target.spec_kind());
    assert(forall|o: ExceptionChannelOption|
        changed.has_exceptionate(o) == target.has_exceptionate(o));
    assert forall|j: int| 0 <= j < n implies (#[trigger] after.objects[j]).spec_kind()
        == before[j].spec_kind() by {
        if j != task {
            assert(after.objects[j] == before[j]);
        }
    }
    assert forall|j: int, o: ExceptionChannelOption| 0 <= j < n implies (
    #[trigger] after.objects[j].has_exceptionate(o)) == before[j].has_exceptionate(o) by {
        if j != task {
            assert(after.objects[j] == before[j]);
        }
    }
    assert forall|i: int, o: ExceptionChannelOption, e: Exceptionate|
        0 <= i < n && exceptionate_wf(before, i, o, e) implies #[trigger] exceptionate_wf(
        after.objects,
        i,
        o,
        e,
    ) by {
        if e.channel is Some {
            let c = e.channel->0 as int;
            assert(before[c] is Channel);
            assert(c != task);
            assert(after.objects[c] == before[c]);
        }
    }
    assert forall|i: int| 0 <= i < after.objects.len() implies #[trigger] object_wf(
        after.objects,
        i,
    ) by {
        assert(object_wf(before, i));
        match before[i] {
            KernelObject::Job(job) => {
                if job.parent is Some {
                    assert(after.objects[job.parent->0 as int].spec_kind()
                        == before[job.parent->0 as int].spec_kind());
                }
                assert(exceptionate_wf(
                    after.objects,
                    i,
                    ExceptionChannelOption::Normal,
                    job.exceptionate,
                ));
                assert(exceptionate_wf(
                    after.objects,
                    i,
                    ExceptionChannelOption::Debugger,
                    job.debug_exceptionate,
                ));
            },
            KernelObject::Process(process) => {
                assert(after.objects[process.job as int].spec_kind()
                    == before[process.job as int].spec_kind());
                assert(exceptionate_wf(
                    after.objects,
                    i,
                    ExceptionChannelOption::Normal,
                    process.exceptionate,
                ));
                assert(exceptionate_wf(
                    after.objects,
                    i,
                    ExceptionChannelOption::Debugger,
                    process.debug_exceptionate,
                ));
            },
            KernelObject::Thread(thread) => {
                assert(after.objects[thread.process as int].spec_kind()
                    == before[thread.process as int].spec_kind());
                assert(exceptionate_wf(
                    after.objects,
                    i,
                    ExceptionChannelOption::Normal,
                    thread.exceptionate,
                ));
            },
            KernelObject::Channel(channel) => {
                assert(after.objects[channel.owner as int].has_exceptionate(channel.option)
                    == before[channel.owner as int].has_exceptionate(channel.option));
            },
            KernelObject::Exception(object) => {
                let t = object.exception.thread as int;
                assert(before[t] is Thread);
                if t == task {
                    assert(changed is Thread);
                    assert(changed->Thread_0.process == target->Thread_0.process);
                } else {
                    assert(after.objects[t] == before[t]);
                }
            },
        }
        if i == task {
            assert(exceptionate_wf(after.objects, i, option, exceptionate));
        } else {
            assert(after.objects[i] == before[i]);
        }
    }
    assert forall|value: HandleValue| #[trigger] after.handles.contains_key(value) implies 1
        <= value < after.next_handle && after.handles[value].object < after.objects.len() by {
        assert(state.handles.contains_key(value));
    }
}

/// A well-formed state stays well formed when an exceptionate of one of its
/// tasks is bound to a new channel; nothing but that exceptionate and the new
/// channel differs.
pub proof fn lemma_with_channel_wf(
    state: State,
    task: KoId,
    option: ExceptionChannelOption,
    thread_rights: Rights,
    process_rights: Rights,
)
    requires
        state.wf(),
        state.objects.len() < usize::MAX,
        task < state.objects.len(),
        state.objects[task as int].has_exceptionate(option),
    ensures
        state.with_channel(task, option, thread_rights, process_rights).wf(),
        state.with_channel(task, option, thread_rights, process_rights).handles == state.handles,
        state.with_channel(task, option, thread_rights, process_rights).next_handle
            == state.next_handle,
        state.with_channel(task, option, thread_rights, process_rights).objects.len()
            == state.objects.len() + 1,
        state.with_channel(task, option, thread_rights, process_rights).objects[state.objects.len() as int]
            == KernelObject::Channel(Channel { owner: task, option }),
        state.with_channel(task, option, thread_rights, process_rights).exceptionate(task, option)
            == Exceptionate::bound_to(state.objects.len() as KoId, thread_rights, process_rights),
        forall|j: int|
            0 <= j < state.objects.len() ==> (#[trigger] state.with_channel(
                task,
                option,
                thread_rights,
                process_rights,
            ).objects[j]).spec_kind() == state.objects[j].spec_kind(),
        state.with_channel(task, option, thread_rights, process_rights).objects
            == state.objects.update(
            task as int,
            state.objects[task as int].spec_with_exceptionate(
                option,
                Exceptionate::bound_to(state.objects.len() as KoId, thread_rights, process_rights),
            ),
        ).push(KernelObject::Channel(Channel { owner: task, option })),
{
    let channel = KernelObject::Channel(Channel { owner: task, option });
    let grown = state.with_object(channel);
    lemma_with_object_wf(state, channel);
    let bound = Exceptionate::bound_to(state.objects.len() as KoId, thread_rights, process_rights);
    lemma_with_exceptionate_wf(grown, task, option, bound);
    let after = state.with_channel(task, option, thread_rights, process_rights);
    assert forall|j: int| 0 <= j < state.objects.len() implies (#[trigger] after.objects[j]).spec_kind()
        == state.objects[j].spec_kind() by {
        assert(grown.objects[j] == state.objects[j]);
    }
    assert(after.objects =~= state.objects.update(
        task as int,
        state.objects[task as int].spec_with_exceptionate(option, bound),
    ).push(channel));
}

/// Closing a handle keeps a state well formed. Where it closes the channel
/// of an exceptionate, that exceptionate is unbound afterwards and keeps its
/// rights masks; no other exceptionate changes.
pub proof fn lemma_close_handle_wf(state: State, value: HandleValue)
    requires
        state.wf(),
        state.handles.contains_key(value),
    ensures
        state.close_handle(value) is Ok,
        state.close_handle(value)->Ok_0.wf(),
        state.close_handle(value)->Ok_0.handles == state.handles.remove(value),
        state.close_handle(value)->Ok_0.next_handle == state.next_handle,
        state.close_handle(value)->Ok_0.objects.len() == state.objects.len(),
        state.closes_bound_channel(value) ==> {
            let c = state.objects[state.handles[value].object as int]->Channel_0;
            &&& c.owner < state.objects.len()
            &&& state.objects[c.owner as int].has_exceptionate(c.option)
            &&& state.close_handle(value)->Ok_0.exceptionate(c.owner, c.option) == State::unbound(
                state.exceptionate(c.owner, c.option),
            )
        },
        !state.closes_bound_channel(value) ==> state.close_handle(value)->Ok_0.objects
            == state.objects,
{
    let removed = State { handles: state.handles.remove(value), ..state };
    assert forall|v: HandleValue| #[trigger] removed.handles.contains_key(v) implies 1 <= v
        < removed.next_handle && removed.handles[v].object < removed.objects.len() by {
        assert(state.handles.contains_key(v));
    }
    assert(removed.wf());
    if state.closes_bound_channel(value) {
        let id = state.handles[value].object as int;
        assert(object_wf(state.objects, id));
        let c = state.objects[id]->Channel_0;
        lemma_with_exceptionate_wf(
            removed,
            c.owner,
            c.option,
            State::unbound(state.exceptionate(c.owner, c.option)),
        );
    }
}

} // verus!
