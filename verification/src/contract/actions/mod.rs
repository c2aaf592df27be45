//! Contract actions that read a slate.

pub mod view;
