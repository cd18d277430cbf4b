//! The rules by which an exception channel is granted: which rights the
//! caller needs on which kind of task, and what the channel then carries.

use vstd::prelude::*;
use crate::error::ZxError;
use crate::object::{ExceptionChannelOption, ExceptionChannelType, ObjectKind};
use crate::rights::Rights;

verus! {

/// The rights needed on any task to make an exception channel for it.
pub const CHANNEL_CREATOR_RIGHTS: u32 = Rights::INSPECT | Rights::DUPLICATE | Rights::TRANSFER
    | Rights::MANAGE_THREAD;

/// The rights of the handle that the creator of an exception channel gets.
pub const CHANNEL_HANDLE_RIGHTS: u32 = Rights::TRANSFER | Rights::WAIT | Rights::READ;

/// The option that a number stands for.
pub open spec fn option_of(value: u32) -> Result<ExceptionChannelOption, u32> {
    if value == 0 {
        Ok(ExceptionChannelOption::Normal)
    } else if value == 1 {
        Ok(ExceptionChannelOption::Debugger)
    } else {
        Err(value)
    }
}

/// The number that stands for an option.
pub open spec fn number_of(option: ExceptionChannelOption) -> u32 {
    match option {
        ExceptionChannelOption::Normal => 0,
        ExceptionChannelOption::Debugger => 1,
    }
}

impl core::convert::TryFrom<u32> for ExceptionChannelOption {
    type Error = u32;

    /// The option written `value`; the number itself when it names none.
    fn try_from(value: u32) -> (r: Result<ExceptionChannelOption, u32>) {
        if value == 0 {
            Ok(ExceptionChannelOption::Normal)
        } else if value == 1 {
            Ok(ExceptionChannelOption::Debugger)
        } else {
            Err(value)
        }
    }
}

impl vstd::std_specs::convert::TryFromSpecImpl<u32> for ExceptionChannelOption {
    open spec fn obeys_try_from_spec() -> bool {
        true
    }

    open spec fn try_from_spec(value: u32) -> Result<ExceptionChannelOption, u32> {
        option_of(value)
    }
}

impl core::convert::From<ExceptionChannelOption> for u32 {
    fn from(option: ExceptionChannelOption) -> (r: u32) {
        match option {
            ExceptionChannelOption::Normal => 0,
            ExceptionChannelOption::Debugger => 1,
        }
    }
}

impl vstd::std_specs::convert::FromSpecImpl<ExceptionChannelOption> for u32 {
    open spec fn obeys_from_spec() -> bool {
        true
    }

    open spec fn from_spec(option: ExceptionChannelOption) -> u32 {
        number_of(option)
    }
}

/// Writing an option as a number and reading it back gives the option; a
/// number that reads as an option is the number of that option.
pub proof fn lemma_option_round_trip(option: ExceptionChannelOption, value: u32)
    ensures
        option_of(number_of(option)) == Ok::<ExceptionChannelOption, u32>(option),
        option_of(value) matches Ok(o) ==> number_of(o) == value,
        option_of(value) is Err <==> value > 1,
{
}

/// What the creator of an exception channel is granted.
#[derive(Clone, Copy, Debug)]
pub struct ChannelGrant {
    /// Which exceptionate of the task the channel is bound to.
    pub option: ExceptionChannelOption,
    /// The most that is handed out with the thread of an exception.
    pub thread_rights: Rights,
    /// The most that is handed out with the process of an exception.
    pub process_rights: Rights,
    /// The rights of the creator's handle to the channel.
    pub handle_rights: Rights,
}

/// The grant for a caller with `rights` who asks for `option`.
pub open spec fn grant_for(rights: Rights, option: ExceptionChannelOption) -> ChannelGrant {
    ChannelGrant {
        option,
        thread_rights: rights.spec_intersection(Rights { bits: Rights::DEFAULT_THREAD }),
        process_rights: rights.spec_intersection(Rights { bits: Rights::DEFAULT_PROCESS }),
        handle_rights: Rights { bits: CHANNEL_HANDLE_RIGHTS },
    }
}

/// Whether a caller whose handle has `rights` on an object of `kind` may make
/// an exception channel with the option written `option`. The checks are made
/// in this order, and the first that fails decides the error.
pub open spec fn spec_exception_channel_grant(rights: Rights, option: u32, kind: ObjectKind)
    -> Result<ChannelGrant, ZxError> {
    if !rights.spec_contains(Rights { bits: CHANNEL_CREATOR_RIGHTS }) {
        Err(ZxError::AccessDenied)
    } else if option_of(option) is Err {
        Err(ZxError::InvalidArgument)
    } else {
        let option = option_of(option)->Ok_0;
        match kind {
            ObjectKind::Job | ObjectKind::Process => {
                if !rights.spec_contains(Rights { bits: Rights::ENUMERATE }) {
                    Err(ZxError::AccessDenied)
                } else {
                    Ok(grant_for(rights, option))
                }
            },
            ObjectKind::Thread => {
                if option == ExceptionChannelOption::Debugger {
                    Err(ZxError::InvalidArgument)
                } else {
                    Ok(grant_for(rights, option))
                }
            },
            _ => Err(ZxError::WrongType),
        }
    }
}

/// Decides whether a caller whose handle has `rights` on an object of `kind`
/// may make an exception channel with the option written `option`, and what
/// the channel then carries.
pub fn exception_channel_grant(rights: Rights, option: u32, kind: ObjectKind) -> (r: Result<
    ChannelGrant,
    ZxError,
>)
    ensures
        r == spec_exception_channel_grant(rights, option, kind),
{
    match rights.check(Rights::new(CHANNEL_CREATOR_RIGHTS)) {
        Ok(_) => {},
        Err(e) => {
            return Err(e);
        },
    }
    let option = match ExceptionChannelOption::try_from(option) {
        Ok(option) => option,
        Err(_) => {
            return Err(ZxError::InvalidArgument);
        },
    };
    match kind {
        ObjectKind::Job | ObjectKind::Process => {
            match rights.check(Rights::new(Rights::ENUMERATE)) {
                Ok(_) => {},
                Err(e) => {
                    return Err(e);
                },
            }
        },
        ObjectKind::Thread => {
            match option {
                ExceptionChannelOption::Normal => {},
                ExceptionChannelOption::Debugger => {
                    return Err(ZxError::InvalidArgument);
                },
            }
        },
        _ => {
            return Err(ZxError::WrongType);
        },
    }
    Ok(
        ChannelGrant {
            option,
            thread_rights: rights & Rights::new(Rights::DEFAULT_THREAD),
            process_rights: rights & Rights::new(Rights::DEFAULT_PROCESS),
            handle_rights: Rights::new(CHANNEL_HANDLE_RIGHTS),
        },
    )
}

/// Whether an exception that the tier `current` handles gives out its
/// process: one that a thread's channel handles does not, so that the holder
/// of a thread's channel cannot reach up to the process.
pub open spec fn spec_exception_process_grant(current: ExceptionChannelType) -> Result<
    (),
    ZxError,
> {
    if current == ExceptionChannelType::Thread {
        Err(ZxError::AccessDenied)
    } else {
        Ok(())
    }
}

/// Decides whether an exception that the tier `current` handles gives out
/// its process.
pub fn exception_process_grant(current: ExceptionChannelType) -> (r: Result<(), ZxError>)
    ensures
        r == spec_exception_process_grant(current),
{
    match current {
        ExceptionChannelType::Thread => Err(ZxError::AccessDenied),
        _ => Ok(()),
    }
}

} // verus!
