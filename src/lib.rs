//! Command-surface layer of a weather lookup utility: option resolution,
//! weather-description icons and a terminal status spinner.

pub mod args;
pub mod emoji;
pub mod optparse;
pub mod spinner;
