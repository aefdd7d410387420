//! Following and showing the output of queued tasks.
//!
//! The library holds the decisions and the text handling of a log viewer: how a growing
//! log is cut into lines and stamped, which part of a log a line limit leaves, when a
//! follow ends, and what is shown for a finished task. Reading files, talking to the
//! daemon and sleeping are left to the caller, who carries out what the library asks for
//! and hands back what happened.
//!
//! Following a log file: [`engine`] decides step by step, [`tail`] holds the steps and
//! [`session`] the model of whole follows with its laws. Following a stream: [`stream`].
//! Showing finished logs: [`logs`] with [`local`], [`remote`] and [`json`]. Beneath them:
//! [`lines`] and [`annotate`] for cutting and stamping text, [`window`] for the line
//! limit, [`codec`] for compressed logs, [`task`] and [`table`] for what is known of a
//! task.

pub mod text;
pub mod decimal;
pub mod lines;
pub mod codec;
pub mod stamp;
pub mod annotate;
pub mod output;
pub mod reading;
pub mod moment;
pub mod task;
pub mod table;
pub mod style;
pub mod window;
pub mod tail;
pub mod engine;
pub mod session;
pub mod stream;
pub mod local;
pub mod remote;
pub mod json;
pub mod logs;
pub mod follow;
