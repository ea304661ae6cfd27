//! Core of a password generator: an ordered registry of toggleable
//! character subsets, a random draw of a password over the enabled
//! alphabet, and a coarse strength estimate derived from the registry
//! state and the requested length.

pub mod estimator;
pub mod generator;
pub mod registry;
