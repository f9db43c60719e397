//! Read-only decoding of the VHDX virtual hard disk container format.

pub mod block;
pub mod checksum;
pub mod disk;
pub mod error;
pub mod file_header;
pub mod maths;
pub mod metadata;
pub mod reader;
pub mod region;
pub mod text;
pub mod vhd_header;
