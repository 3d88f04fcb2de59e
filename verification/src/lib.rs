//! Screen Shield core: the decisions, encodings and bookkeeping behind the
//! capture-exclusion helper, separated from the Win32 calls that carry them out.

pub mod strings;
pub mod base64;
pub mod watcher;
pub mod hook;
pub mod etw;
pub mod window_list;
pub mod icon;
pub mod command_line;
pub mod ipc;
pub mod injector;
