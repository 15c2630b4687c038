//! A read-only decoder for the Executable and Linkable Format.

pub mod elf;
