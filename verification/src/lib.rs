//! Stream selection and merge planning for a tool that combines the picture
//! of one media file with an audio stream of another.
//!
//! The library decides; it runs no external program. A caller hands it the
//! text that the probing tool printed and receives typed stream lists, a merge
//! plan, the argument lists for both tools and the classification of the
//! muxing tool's exit.

pub mod text;
pub mod stream;
pub mod json;
pub mod probe;
pub mod plan;
pub mod session;
pub mod worker;
