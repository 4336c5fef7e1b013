//! The matchers of the library.
pub mod all_matcher;
pub mod anything_matcher;
pub mod conjunction_matcher;
pub mod contains_matcher;
pub mod eq_matcher;
pub mod str_matcher;
