//! Recovering the link arguments of a native build from the files that the
//! build tool leaves behind: a linker transcript on Unix-like systems, a
//! project file or a makefile fragment on Windows.

pub mod link_arg;
pub mod text;
pub mod matcher;
pub mod unix;
pub mod windows;
pub mod nmake;
pub mod select;
