//! Capability rights, handles and exception channels of a microkernel object model.

pub mod error;
pub mod exception;
pub mod grant;
pub mod handle;
pub mod laws;
pub mod object;
pub mod rights;
pub mod state;
pub mod stdio;
pub mod syscall;
