//! Composable matchers for test assertions.
pub mod container;
pub mod description;
pub mod matcher;
pub mod matchers;
pub mod text;
