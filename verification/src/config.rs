//! The configuration of the tool and where it is looked for.

use vstd::prelude::*;

verus! {

/// Where in a video page the data sits and which rendition is wanted.
#[derive(Debug, Clone)]
pub struct PageConfig {
    /// Member names leading to the list of videos; the last names the list.
    pub video_nested_tag: Vec<String>,
    /// Member names leading to the title; the last names the title.
    pub title_nested_tag: Vec<String>,
    /// Member names leading to the DRM flag; the last names the flag.
    pub drm_nested_tag: Vec<String>,
    /// Text right before the JSON document in the page.
    pub script_start_marker: String,
    /// Text right after the JSON document in the page.
    pub script_end_marker: String,
    /// The member of a video that names its rendition.
    pub video_profile: String,
    /// The rendition to download.
    pub selected_video_profile: String,
}

/// How downloads are made and shown.
#[derive(Debug, Clone)]
pub struct DownloadConfig {
    pub max_redirect: u32,
    pub download_timeout_s: u64,
    pub progress_chars: String,
    pub progress_template: String,
}

/// The whole configuration.
#[derive(Debug, Clone)]
pub struct Config {
    pub page_config: PageConfig,
    pub download_config: DownloadConfig,
}

/// The configuration file installed for the user, tried after the one given.
pub open spec fn user_config_path() -> Seq<char> {
    "~/.config/pbskids-dl.rs/config.json"@
}

/// The configuration file installed with the package, tried last.
pub open spec fn package_config_path() -> Seq<char> {
    "/usr/lib/pbskids-dl.rs/config.json"@
}

/// The configuration files to try, in order: the one given first, then the
/// user's, then the package's.
pub fn config_search_paths(given: &String) -> (r: Vec<String>)
    ensures
        r@.len() == 3,
        r@[0]@ == given@,
        r@[1]@ == user_config_path(),
        r@[2]@ == package_config_path(),
{
    let mut paths: Vec<String> = Vec::new();
    paths.push(given.clone());
    paths.push(String::from_str("~/.config/pbskids-dl.rs/config.json"));
    paths.push(String::from_str("/usr/lib/pbskids-dl.rs/config.json"));
    paths
}

/// What to do after trying to read one of the configuration files.
#[derive(Debug, Clone, Copy, PartialEq, Eq)]
pub enum ConfigStep {
    /// The file was read: its contents decide, a parse error included.
    Parse,
    /// The file could not be read: try the next one.
    TryNext,
    /// No file could be read.
    NotFound,
}

/// What to do after trying file `index` of `count` candidates: the first
/// file that can be read decides; when none can, the configuration is not
/// found.
pub fn config_step(readable: bool, index: usize, count: usize) -> (r: ConfigStep)
    requires
        index < count,
    ensures
        readable ==> r == ConfigStep::Parse,
        !readable && index + 1 < count ==> r == ConfigStep::TryNext,
        !readable && index + 1 == count ==> r == ConfigStep::NotFound,
{
    if readable {
        ConfigStep::Parse
    } else if index + 1 < count {
        ConfigStep::TryNext
    } else {
        ConfigStep::NotFound
    }
}

} // verus!
