//! Supervision core for a host process that runs a fixed list of shell
//! commands and stops all of them on one external stop request.

pub mod aggregate;
pub mod fanout;
pub mod machine;
pub mod outcome;
pub mod plan;
pub mod shell;
pub mod supervisor;
pub mod token;
pub mod trace;
