//! The benchmark families: one record type each, drawn from a stream.

pub mod log;
pub mod mesh;
pub mod minecraft_savedata;
pub mod mk48;
