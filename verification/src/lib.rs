//! The multiplexing core of a terminal workspace manager: domains in which
//! terminal sessions live, the tabs, panes and windows that hold them, and the
//! rules that turn a request to open a session into a launch and an insertion.
//!
//! Nothing here touches the machine. Where a PTY is to be opened or a process
//! started, the library says so and is told how it went; see `launch`.

pub mod command;
pub mod domain;
pub mod error;
pub mod ids;
pub mod launch;
pub mod layout;
pub mod lookup;
pub mod pane;
pub mod registry;
pub mod spawn;
pub mod tab;
pub mod text;
pub mod window;
