//! A verified core for reading DWARF debug information through elfutils'
//! libdw, libelf and libdwfl: error mapping, session ownership, cursor
//! values, unit and tree walks, and the bridge between native callback
//! enumeration and caller closures.
pub mod attr;
pub mod bridge;
pub mod die;
pub mod dwarf;
pub mod dwelf;
pub mod dwfl;
pub mod elf;
pub mod error;
pub mod units;
