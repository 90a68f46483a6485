//! The decisions of the component runtimes.

pub mod evaluate;
pub mod loading;
pub mod spinner;
