//! Command dispatch and plugin-pool orchestration for a multi-plugin
//! code-formatting command line tool.
//!
//! A parsed command is routed to exactly one handler; handlers that format
//! files share one bounded pool of initialized plugin instances per plugin.
pub mod cache;
pub mod command;
pub mod dispatch;
pub mod pool;
