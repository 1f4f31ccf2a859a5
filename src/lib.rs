use vstd::prelude::*;

pub mod controllers;
pub mod geometry;
pub mod input;
pub mod keys;
pub mod pacer;
pub mod slot;
pub mod view;

pub use controllers::Action;
