//! System detection: GPU, RAM, CPU and distribution. Every function takes
//! the text a system command prints (or the contents of a file) and returns
//! the parsed result; gathering that text is the caller's business.

pub mod cpu;
pub mod distro;
pub mod ram;
pub mod gpu;
