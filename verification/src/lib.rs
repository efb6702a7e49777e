//! Game launcher support library: locales, download planning, integrity
//! checking, archive layout and release metadata, with verified contracts.

pub mod text;
pub mod voice_locale;
pub mod downloader;
pub mod paths;
pub mod token;
pub mod digest;
pub mod kuro;
pub mod integrity;
pub mod archive;
pub mod totals;
pub mod sophon;
pub mod sophon_job;
pub mod sophon_patch;
pub mod sophon_preload;
pub mod progress;
pub mod steamrt;
pub mod system;
pub mod github;
pub mod codeberg;
pub mod extras;
pub mod game;
pub mod zipped;
pub mod yostar_repair;
