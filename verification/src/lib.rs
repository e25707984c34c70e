//! Recursive file search by name: the match rule, what a directory walk
//! yields, the search session and its report, and the interactive shell that
//! asks for one search after the other.

pub mod matching;
pub mod report;
pub mod session;
pub mod shell;
pub mod trim;
pub mod walk;
