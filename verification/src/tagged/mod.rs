//! The tagged forms of the wire types: which tag carries which field, what
//! an absent field stands for, and the proof that reading what was written
//! gives the value back.

pub mod commit;
pub mod file;
pub mod ids;
pub mod scalars;
