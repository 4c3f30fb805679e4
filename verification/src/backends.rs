//! The generation strategies: compute, render, copy, and the recommended
//! fallback chain over all three.

pub mod compute;
pub mod copy;
pub mod recommended;
pub mod render;



