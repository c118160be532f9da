//! Conveniences for programs built on the Win32 API surface: a cell whose
//! mutation sessions a window procedure may safely re-enter, guards that
//! couple a resource with its free-operation, the two-call idiom for
//! size-then-fill system calls, bit packing and unpacking for the message
//! protocol's parameter words, error-translation helpers for the API's
//! return-value conventions, and the bookkeeping of a message loop and a
//! tray icon. Everything here is stated in contracts and verified; the
//! system calls themselves stay with the caller, who hands in plain values
//! and carries the computed results to the API.

pub mod bit_manipulation;
pub mod cell;
pub mod dual_call;
pub mod empty;
pub mod error;
pub mod foundation;
pub mod hstring;
pub mod res_guard;
pub mod win32_app;

pub use cell::BorrowConflict;
pub use cell::ReentrantRefCell;
pub use dual_call::dual_call;
pub use dual_call::FirstCallExpectation;
pub use empty::Null;
pub use empty::ValidateHandle;
pub use empty::Zeroed;
pub use res_guard::ResGuard;
