//! The settings a user keeps, as far as the engine reads them.

use vstd::prelude::*;
use crate::text::{trim_text, trimmed};

verus! {

/// The name of the directory, below the application's data directory, that
/// pictures go to where no other directory is configured.
pub const IMAGES_SUBDIR: &'static str = "images";

/// The user's settings. They are loaded by the caller; where they are missing
/// or cannot be read the engine is handed `None`.
#[derive(Debug, Clone, PartialEq, Eq)]
pub struct Settings {
    pub auto_hide_window: bool,
    pub always_on_top: bool,
    pub enable_image_save: bool,
    pub image_base_path: String,
}

/// Where a picture is written.
#[derive(Debug, Clone, PartialEq, Eq)]
pub enum ImageDir {
    /// The directory named in the settings.
    Configured(String),
    /// The `IMAGES_SUBDIR` directory below the application's data directory.
    Default,
}

/// Whether pictures are to be saved: where the settings say so. Missing
/// settings mean that they are not.
pub fn image_save_enabled(loaded: Option<&Settings>) -> (enabled: bool)
    ensures
        enabled == (loaded matches Some(s) && s.enable_image_save),
{
    match loaded {
        Some(s) => s.enable_image_save,
        None => false,
    }
}

/// The directory that pictures are written to: the configured path, exactly as
/// it was written, where the settings hold one that is more than white space;
/// the default directory where the path is empty or blank, and where there are
/// no settings.
pub fn image_dir(loaded: Option<&Settings>) -> (dir: ImageDir)
    ensures
        match loaded {
            Some(s) => if trimmed(s.image_base_path@).len() == 0 {
                dir == ImageDir::Default
            } else {
                dir matches ImageDir::Configured(path) && path@ == s.image_base_path@
            },
            None => dir == ImageDir::Default,
        },
{
    match loaded {
        Some(s) => {
            if trim_text(s.image_base_path.as_str()).is_empty() {
                ImageDir::Default
            } else {
                ImageDir::Configured(s.image_base_path.clone())
            }
        },
        None => ImageDir::Default,
    }
}

} // verus!
