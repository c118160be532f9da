//! Helpers for the recurring duties of a message-driven application: a
//! per-loop error store, the decisions of a message loop, tray icon state,
//! and window message translation. The parts that talk to the operating
//! system live with the caller; what stands here is the bookkeeping and the
//! decisions, stated and proved.

pub mod error;
pub mod msg_loop;
pub mod tray_icon;
pub mod window;
