//! Domain types: clips, their fields and the rules that govern them.

pub mod clip;
pub mod maintenance;
pub mod text;
