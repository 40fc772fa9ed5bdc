use vstd::prelude::*;

use crate::text::append_str;

verus! {

/// The service's settings, read from the environment.
#[derive(Clone, Debug)]
pub struct MachinaConfig {
    pub app_url: String,
    pub b2_bucket_id: String,
    pub b2_application_key_id: String,
    pub b2_application_key: String,
    pub video_generator_dir: String,
    pub video_cache_max_bytes: u64,
    pub default_base_color: String,
    pub embed_image_service_url: String,
}

/// Why the settings could not be read.
#[derive(Clone, Copy, Debug, PartialEq, Eq)]
pub enum MachinaConfigError {
    /// A required variable is not set.
    MissingRequired(&'static str),
    /// A variable does not parse.
    ParseError(&'static str),
}

impl MachinaConfigError {
    /// The error's message, naming the variable.
    pub fn message(&self) -> (s: String)
        ensures
            s@ == match self {
                MachinaConfigError::MissingRequired(name) => "missing required environment variable: "@
                    + name@,
                MachinaConfigError::ParseError(name) => "failed to parse environment variable: "@
                    + name@,
            },
    {
        let mut s = String::new();
        match self {
            MachinaConfigError::MissingRequired(name) => {
                append_str(&mut s, "missing required environment variable: ");
                append_str(&mut s, name);
            },
            MachinaConfigError::ParseError(name) => {
                append_str(&mut s, "failed to parse environment variable: ");
                append_str(&mut s, name);
            },
        }
        s
    }
}

} // verus!
