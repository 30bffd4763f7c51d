//! A tabbed window stack: several member windows grouped under one tab
//! header, with membership and navigation operations, an input router that
//! decides between the header and the active member, and render placement.

pub mod geometry;
pub mod member;
pub mod members;
pub mod stack;
pub mod input;
pub mod render;
pub mod message;
pub mod laws;
