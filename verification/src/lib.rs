//! Build-time specialisation of React Native platform checks.
//!
//! Given a syntax tree, an ordered list of target platforms and a development
//! flag, the pass replaces `Platform.OS`, `Platform.select({...})` and free
//! occurrences of `__DEV__` by the values they have on the target platform.

pub mod ast;
pub mod collect;
pub mod laws;
pub mod replacer;
