//! The decisions behind `gz`, a fuzzy-finder front end to git.

pub mod cli;
pub mod color;
pub mod commands;
pub mod error;
pub mod finder;
pub mod gh;
pub mod git;
pub mod i18n;
pub mod laws;
pub mod selection;
pub mod text;
pub mod told;
