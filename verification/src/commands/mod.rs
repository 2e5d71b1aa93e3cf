//! Subcommand modules. Each owns its argument types and the part of its
//! handler that decides; the handlers of commands whose phase has not
//! landed answer with a uniform `unimplemented` message.

pub mod check;
pub mod destroy;
pub mod elf;
pub mod exec;
pub mod init;
pub mod keeper;
pub mod logs;
pub mod metrics;
pub mod pair;
pub mod push;
pub mod register;
pub mod rollback;
pub mod scale;
pub mod secrets;
pub mod status;
pub mod token;
pub mod update;
pub mod watch;
pub mod unimplemented;

pub use unimplemented::{not_yet, not_yet_text};
