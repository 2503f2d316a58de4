//! Pieces shared by several pages.
pub mod badge;
