//! The supported cartridge boards, one module each.

pub mod m0;
pub mod m1;
