//! Building manual pages from documentation sources.
//!
//! A documentation source is a file whose name ends in `.<digit>.md` or
//! `.<digit>.xml`. The digit is the manual section, the extension tells which
//! converter turns the file into a manual page, and the page is written to
//! `<destination>/<section>/<stem>`.
//!
//! This crate holds the rules: how a file name is classified, which command
//! converts a source, where its page goes, and how a build reacts to what the
//! file system and the converters report. Touching the file system and
//! running the converters is left to the caller, who drives a [`Dispatcher`].

pub mod classify;
pub mod command;
pub mod dispatch;
pub mod layout;
pub mod run;

pub use classify::{classify, Classification, Format};
pub use command::CommandSpec;
pub use dispatch::{plan, BuildError, Dispatcher, Job, Reply, Request, Step};
pub use layout::{join, page_file, section_directory};
