//! The settings of the toolbox: where the seed data and the cache store are,
//! and the address of the remote service.

use crate::models::github::optional_text;
use crate::text::to_chars;
use vstd::prelude::*;
use vstd::string::StringExecFns;

verus! {

/// The settings of the toolbox.
#[derive(Debug, PartialEq, Eq)]
pub struct Config {
    pub unicode_data_path: String,
    pub blocks_path: String,
    pub cache_db_path: String,
    pub github_api_base_url: String,
}

/// A `Config` as plain values.
pub struct ConfigView {
    pub unicode_data_path: Seq<char>,
    pub blocks_path: Seq<char>,
    pub cache_db_path: Seq<char>,
    pub github_api_base_url: Seq<char>,
}

impl View for Config {
    type V = ConfigView;

    open spec fn view(&self) -> ConfigView {
        ConfigView {
            unicode_data_path: self.unicode_data_path@,
            blocks_path: self.blocks_path@,
            cache_db_path: self.cache_db_path@,
            github_api_base_url: self.github_api_base_url@,
        }
    }
}

/// A path with one more component: the component alone after the empty
/// path, and otherwise the path, a `/` unless the path ends in one, and the
/// component.
pub open spec fn join_path(path: Seq<char>, component: Seq<char>) -> Seq<char> {
    if path.len() == 0 {
        component
    } else if path.last() == '/' {
        path + component
    } else {
        path.push('/') + component
    }
}

/// The directory that holds the cache file: `dev-toolbox` in the data
/// directory, and in the working directory when there is no data directory.
pub open spec fn cache_directory(data_dir: Option<Seq<char>>) -> Seq<char> {
    match data_dir {
        Some(dir) => join_path(dir, "dev-toolbox"@),
        None => join_path("."@, "dev-toolbox"@),
    }
}

fn join(path: String, component: &str) -> (joined: String)
    ensures
        joined@ == join_path(path@, component@),
{
    let chars = to_chars(path.as_str());
    if chars.len() == 0 {
        return component.to_owned();
    }
    let mut joined = path;
    if chars[chars.len() - 1] != '/' {
        joined.push('/');
    }
    joined.append(component);
    joined
}

impl Config {
    /// The directory that holds the cache file by default.
    pub fn default_cache_directory(data_dir: Option<String>) -> (dir: String)
        ensures
            dir@ == cache_directory(optional_text(data_dir)),
    {
        match data_dir {
            Some(dir) => join(dir, "dev-toolbox"),
            None => join(".".to_owned(), "dev-toolbox"),
        }
    }

    /// The settings used when no configuration file exists: the seed data in
    /// the working directory, the public address of the remote service, and
    /// the cache file `cache.db` in the directory `dev-toolbox` of the data
    /// directory, or of the working directory when there is no data
    /// directory.
    pub fn default_with_paths(data_dir: Option<String>) -> (config: Config)
        ensures
            config@ == (ConfigView {
                unicode_data_path: "UnicodeData.txt"@,
                blocks_path: "Blocks.txt"@,
                cache_db_path: join_path(
                    cache_directory(optional_text(data_dir)),
                    "cache.db"@,
                ),
                github_api_base_url: "https://api.github.com"@,
            }),
    {
        let dir = Config::default_cache_directory(data_dir);
        Config {
            unicode_data_path: "UnicodeData.txt".to_owned(),
            blocks_path: "Blocks.txt".to_owned(),
            cache_db_path: join(dir, "cache.db"),
            github_api_base_url: "https://api.github.com".to_owned(),
        }
    }
}

} // verus!
