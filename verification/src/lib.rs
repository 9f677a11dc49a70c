//! An interactive shell that bootstraps the on-disk layout of a minimal
//! version-control repository: a command grammar over three commands, a
//! line-to-command translator, the repository initialization plan, and
//! the decisions of the interactive session loop.

pub mod grammar;
pub mod layout;
pub mod session;
pub mod tokens;
