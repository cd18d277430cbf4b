//! What holds of the system calls on every state, proved from their
//! definitions.

use vstd::prelude::*;
use crate::error::ZxError;
use crate::grant::{CHANNEL_CREATOR_RIGHTS, CHANNEL_HANDLE_RIGHTS};
use crate::handle::{Handle, HandleValue};
use crate::object::{ExceptionChannelOption, ExceptionChannelType, Exceptionate, KernelObject, KoId};
use crate::rights::{lemma_derived_rights_within_source, Rights};
use crate::state::{lemma_with_channel_wf, lemma_with_handle_wf, State};

verus! {

/// Whether `state` has room for one more object and one more handle.
pub open spec fn can_grow(state: State) -> bool {
    state.has_room() && state.objects.len() < usize::MAX
}

/// A debugger's channel on a thread is refused with `InvalidArgument`,
/// whatever further rights the handle has, once it has the rights that any
/// exception channel needs.
pub proof fn law_debugger_channel_on_thread_is_invalid(state: State, task: HandleValue)
    requires
        state.resolve(task) is Ok,
        state.objects[state.resolve(task)->Ok_0.object as int] is Thread,
        state.resolve(task)->Ok_0.rights.spec_contains(Rights { bits: CHANNEL_CREATOR_RIGHTS }),
    ensures
        state.create_exception_channel(task, 1) == Err::<(HandleValue, State), ZxError>(
            ZxError::InvalidArgument,
        ),
{
}

/// A handle to a job or a process that lacks ENUMERATE is refused with
/// `AccessDenied`, also when it has the four rights that any exception
/// channel needs, for each option that exists.
pub proof fn law_job_or_process_needs_enumerate(state: State, task: HandleValue, option: u32)
    requires
        state.resolve(task) is Ok,
        state.objects[state.resolve(task)->Ok_0.object as int] is Job
            || state.objects[state.resolve(task)->Ok_0.object as int] is Process,
        !state.resolve(task)->Ok_0.rights.spec_contains(Rights { bits: Rights::ENUMERATE }),
        option <= 1,
    ensures
        state.create_exception_channel(task, option) == Err::<(HandleValue, State), ZxError>(
            ZxError::AccessDenied,
        ),
{
}

/// Making an exception channel keeps a state well formed, and so does each
/// accessor of an exception.
pub proof fn law_system_calls_keep_well_formed(state: State, handle: HandleValue, option: u32)
    requires
        state.wf(),
        can_grow(state),
    ensures
        state.create_exception_channel(handle, option) matches Ok((_, after)) ==> after.wf(),
        state.exception_get_thread(handle) matches Ok((_, after)) ==> after.wf(),
        state.exception_get_process(handle) matches Ok((_, after)) ==> after.wf(),
{
    if state.create_exception_channel(handle, option) is Ok {
        lemma_channel_step(state, handle, option);
    }
    if state.exception_of(handle) is Ok {
        lemma_exception_refers_to_objects(state, handle);
        let e = state.exception_of(handle)->Ok_0;
        lemma_with_handle_wf(state, Handle { object: e.thread, rights: e.thread_rights });
        lemma_with_handle_wf(state, Handle { object: e.process, rights: e.process_rights });
    }
}

/// In a well-formed state the exception behind a handle names a thread and
/// the process of that thread.
pub proof fn lemma_exception_refers_to_objects(state: State, exception: HandleValue)
    requires
        state.wf(),
        state.exception_of(exception) is Ok,
    ensures
        state.exception_of(exception)->Ok_0.thread < state.objects.len(),
        state.exception_of(exception)->Ok_0.process < state.objects.len(),
        state.objects[state.exception_of(exception)->Ok_0.thread as int] matches KernelObject::Thread(
            thread,
        ) && thread.process == state.exception_of(exception)->Ok_0.process,
        state.objects[state.exception_of(exception)->Ok_0.process as int] is Process,
{
    let handle = state.resolve(exception)->Ok_0;
    assert(state.handles.contains_key(exception));
    let id = handle.object as int;
    assert(crate::state::object_wf(state.objects, id));
    let e = state.exception_of(exception)->Ok_0;
    assert(crate::state::object_wf(state.objects, e.thread as int));
}

/// What a successful `create_exception_channel` leaves behind: the task's
/// exceptionate is bound to a new channel object, the caller's new handle
/// names that channel, every older handle is as it was, and the state is well
/// formed.
pub proof fn lemma_channel_step(state: State, task: HandleValue, option: u32)
    requires
        state.wf(),
        can_grow(state),
        state.create_exception_channel(task, option) is Ok,
    ensures
        ({
            let (value, after) = state.create_exception_channel(task, option)->Ok_0;
            let source = state.resolve(task)->Ok_0;
            let channel = state.objects.len() as KoId;
            &&& after.wf()
            &&& value == state.next_handle
            &&& !state.handles.contains_key(value)
            &&& after.handles == state.handles.insert(
                value,
                Handle { object: channel, rights: Rights { bits: CHANNEL_HANDLE_RIGHTS } },
            )
            &&& after.objects.len() == state.objects.len() + 1
            &&& after.objects[channel as int] is Channel
            &&& after.objects[source.object as int].spec_kind()
                == state.objects[source.object as int].spec_kind()
            &&& exists|chosen: ExceptionChannelOption|
                {
                    &&& crate::grant::option_of(option) == Ok::<ExceptionChannelOption, u32>(
                        chosen,
                    )
                    &&& !state.exceptionate(source.object, chosen).spec_is_bound()
                    &&& #[trigger] after.exceptionate(source.object, chosen)
                        == Exceptionate::bound_to(
                        channel,
                        source.rights.spec_intersection(Rights { bits: Rights::DEFAULT_THREAD }),
                        source.rights.spec_intersection(Rights { bits: Rights::DEFAULT_PROCESS }),
                    )
                }
        }),
{
    let source = state.resolve(task)->Ok_0;
    assert(state.handles.contains_key(task));
    let grant = crate::grant::spec_exception_channel_grant(
        source.rights,
        option,
        state.objects[source.object as int].spec_kind(),
    )->Ok_0;
    lemma_with_channel_wf(
        state,
        source.object,
        grant.option,
        grant.thread_rights,
        grant.process_rights,
    );
    let bound = state.with_channel(
        source.object,
        grant.option,
        grant.thread_rights,
        grant.process_rights,
    );
    let user_end = Handle { object: state.objects.len() as KoId, rights: grant.handle_rights };
    lemma_with_handle_wf(bound, user_end);
    let after = bound.with_handle(user_end);
    assert(after.exceptionate(source.object, grant.option) == bound.exceptionate(
        source.object,
        grant.option,
    ));
}

/// Of two calls of `create_exception_channel` with the same task and option,
/// the second made while the channel of the first is open, exactly one
/// succeeds: when the first does, the second is refused with `AlreadyBound`.
pub proof fn law_second_channel_is_refused(state: State, task: HandleValue, option: u32)
    requires
        state.wf(),
        can_grow(state),
        state.create_exception_channel(task, option) is Ok,
    ensures
        state.create_exception_channel(task, option)->Ok_0.1.create_exception_channel(task, option)
            == Err::<(HandleValue, State), ZxError>(ZxError::AlreadyBound),
{
    lemma_channel_step(state, task, option);
    let (value, after) = state.create_exception_channel(task, option)->Ok_0;
    assert(state.handles.contains_key(task));
    assert(after.handles.contains_key(task));
    assert(after.resolve(task) == state.resolve(task));
}

/// Once the creator closes the only handle to its channel, the exceptionate
/// is free again: the call that was refused with `AlreadyBound` succeeds.
pub proof fn law_closing_the_channel_frees_the_exceptionate(
    state: State,
    task: HandleValue,
    option: u32,
)
    requires
        state.wf(),
        can_grow(state),
        state.create_exception_channel(task, option) is Ok,
    ensures
        ({
            let (value, bound) = state.create_exception_channel(task, option)->Ok_0;
            &&& bound.create_exception_channel(task, option) == Err::<
                (HandleValue, State),
                ZxError,
            >(ZxError::AlreadyBound)
            &&& bound.close_handle(value) is Ok
            &&& bound.close_handle(value)->Ok_0.create_exception_channel(task, option) is Ok
        }),
{
    lemma_channel_step(state, task, option);
    law_second_channel_is_refused(state, task, option);
    let (value, bound) = state.create_exception_channel(task, option)->Ok_0;
    let source = state.resolve(task)->Ok_0;
    let chosen = crate::grant::option_of(option)->Ok_0;
    let channel = state.objects.len() as KoId;
    assert(state.handles.contains_key(task));
    assert(bound.handles.contains_key(value));
    assert(bound.handles[value].object == channel);
    // no older handle names the new channel
    assert(!bound.has_other_handle(value, channel)) by {
        if bound.has_other_handle(value, channel) {
            let other = choose|other: HandleValue|
                other != value && #[trigger] bound.handles.contains_key(other)
                    && bound.handles[other].object == channel;
            assert(state.handles.contains_key(other));
        }
    }
    crate::state::lemma_with_channel_wf(
        state,
        source.object,
        chosen,
        source.rights.spec_intersection(Rights { bits: Rights::DEFAULT_THREAD }),
        source.rights.spec_intersection(Rights { bits: Rights::DEFAULT_PROCESS }),
    );
    assert(bound.objects[channel as int] == KernelObject::Channel(
        crate::object::Channel { owner: source.object, option: chosen },
    ));
    assert(bound.closes_bound_channel(value));
    crate::state::lemma_close_handle_wf(bound, value);
    let closed = bound.close_handle(value)->Ok_0;
    assert(closed.handles.contains_key(task));
    assert(closed.resolve(task) == state.resolve(task));
    assert(closed.objects[source.object as int].spec_kind()
        == state.objects[source.object as int].spec_kind());
}

/// Whatever handle is used: once the checks on the handle and the option
/// pass, an exceptionate that is bound refuses a further channel with
/// `AlreadyBound`. An exceptionate has one observer at a time.
pub proof fn law_bound_exceptionate_refuses(state: State, task: HandleValue, option: u32)
    requires
        state.resolve(task) is Ok,
        crate::grant::spec_exception_channel_grant(
            state.resolve(task)->Ok_0.rights,
            option,
            state.objects[state.resolve(task)->Ok_0.object as int].spec_kind(),
        ) matches Ok(grant) && state.exceptionate(
            state.resolve(task)->Ok_0.object,
            grant.option,
        ).spec_is_bound(),
    ensures
        state.create_exception_channel(task, option) == Err::<(HandleValue, State), ZxError>(
            ZxError::AlreadyBound,
        ),
{
}

/// The handle that `create_exception_channel` returns has exactly the rights
/// TRANSFER, WAIT and READ, whatever rights its creator had, and names the new
/// channel.
pub proof fn law_channel_handle_rights_are_fixed(state: State, task: HandleValue, option: u32)
    requires
        state.wf(),
        can_grow(state),
        state.create_exception_channel(task, option) is Ok,
    ensures
        ({
            let (value, after) = state.create_exception_channel(task, option)->Ok_0;
            &&& after.resolve(value) is Ok
            &&& after.resolve(value)->Ok_0.rights.bits == 0x4006
            &&& after.resolve(value)->Ok_0.rights.bits == Rights::TRANSFER | Rights::WAIT
                | Rights::READ
            &&& after.objects[after.resolve(value)->Ok_0.object as int] is Channel
        }),
{
    lemma_channel_step(state, task, option);
    assert(CHANNEL_HANDLE_RIGHTS == 0x4006) by (bit_vector);
    assert(Rights::TRANSFER | Rights::WAIT | Rights::READ == 0x4006) by (bit_vector);
}

/// The rights that an exception channel can ever hand out with a thread or a
/// process are rights that its creator had.
pub proof fn law_channel_rights_within_creator_rights(
    state: State,
    task: HandleValue,
    option: u32,
)
    requires
        state.wf(),
        can_grow(state),
        state.create_exception_channel(task, option) is Ok,
    ensures
        ({
            let (value, after) = state.create_exception_channel(task, option)->Ok_0;
            let source = state.resolve(task)->Ok_0;
            let chosen = crate::grant::option_of(option)->Ok_0;
            &&& after.exceptionate(source.object, chosen).thread_rights.subset_of(source.rights)
            &&& after.exceptionate(source.object, chosen).process_rights.subset_of(source.rights)
        }),
{
    lemma_channel_step(state, task, option);
    let source = state.resolve(task)->Ok_0;
    lemma_derived_rights_within_source(source.rights, Rights { bits: Rights::DEFAULT_THREAD });
    lemma_derived_rights_within_source(source.rights, Rights { bits: Rights::DEFAULT_PROCESS });
}

/// `exception_get_process` is refused with `AccessDenied` exactly when a
/// thread's channel handles the exception; otherwise it succeeds, and the new
/// handle names the exception's process with the rights that the exception
/// holds for it.
pub proof fn law_process_is_hidden_from_thread_channels(state: State, exception: HandleValue)
    requires
        state.wf(),
        state.has_room(),
        state.exception_of(exception) is Ok,
    ensures
        state.exception_get_process(exception) == Err::<(HandleValue, State), ZxError>(
            ZxError::AccessDenied,
        ) <==> state.exception_of(exception)->Ok_0.current_channel_type
            == ExceptionChannelType::Thread,
        state.exception_of(exception)->Ok_0.current_channel_type != ExceptionChannelType::Thread
            ==> {
            &&& state.exception_get_process(exception) matches Ok((value, after))
            &&& after.resolve(value) == Ok::<Handle, ZxError>(
                Handle {
                    object: state.exception_of(exception)->Ok_0.process,
                    rights: state.exception_of(exception)->Ok_0.process_rights,
                },
            )
            &&& after.objects[state.exception_of(exception)->Ok_0.process as int] is Process
        },
{
    lemma_exception_refers_to_objects(state, exception);
}

/// `exception_get_thread` succeeds for every handle that names an exception,
/// whatever tier handles it, and the new handle names the exception's thread
/// with the rights that the exception holds for it.
pub proof fn law_thread_is_always_given(state: State, exception: HandleValue)
    requires
        state.wf(),
        state.has_room(),
        state.exception_of(exception) is Ok,
    ensures
        state.exception_get_thread(exception) matches Ok((value, after)) && after.resolve(value)
            == Ok::<Handle, ZxError>(
            Handle {
                object: state.exception_of(exception)->Ok_0.thread,
                rights: state.exception_of(exception)->Ok_0.thread_rights,
            },
        ) && after.objects[state.exception_of(exception)->Ok_0.thread as int] is Thread,
{
    lemma_exception_refers_to_objects(state, exception);
}

/// A handle names an exception as soon as it is in the table and its object
/// is one: no right is asked of it.
pub proof fn law_exception_handle_needs_no_right(state: State, exception: HandleValue)
    ensures
        state.exception_of(exception) is Ok <==> (state.handles.contains_key(exception)
            && state.objects[state.handles[exception].object as int] is Exception),
        state.exception_of(exception) == Err::<crate::object::Exception, ZxError>(
            ZxError::WrongHandle,
        ) <==> !state.handles.contains_key(exception),
{
    if state.handles.contains_key(exception) {
        let bits = state.handles[exception].rights.bits;
        assert(bits & 0u32 == 0u32) by (bit_vector);
    }
}

} // verus!
