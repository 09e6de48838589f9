//! Debug-information metadata builder: the DWARF enumerations and their native
//! encodings, the builder session that records metadata nodes, and the
//! finalize/dispose lifecycle of the native builder resource.

pub mod dwarf;
pub mod lifecycle;
pub mod debug_info;
