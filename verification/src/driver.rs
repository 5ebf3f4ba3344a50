//! Parsers and sequencers of the VGM and XGM music formats.
pub mod meta;
pub mod gd3meta;
pub mod metadata;
pub mod xgmmeta;
pub mod vgmplay;
pub mod xgmplay;
