//! The application's persistent configuration values.
//!
//! Loading and saving them is plain file I/O and lives outside the
//! library; the defaults and the directory-resolution rules are pure and
//! live here.

use vstd::prelude::*;
use vstd::string::StringExecFns;

use crate::strutil::concat_path;
use crate::strutil::spec_concat_path;

verus! {

/// Application configuration settings.
#[derive(Clone, Debug)]
pub struct Settings {
    /// The default Alpine Linux mirror URL.
    pub default_mirror: String,
    /// Directory used for caching downloaded files.
    pub cache_dir: String,
    /// Directory where the rootfs is extracted and managed.
    pub rootfs_dir: String,
    /// The command used to run the rootfs (one of the two backends).
    pub cmd_rootfs: String,
    /// The target Alpine release version.
    pub release: String,
    /// Default output directory for build artifacts.
    pub output_dir: String,
}

/// The settings' mathematical value: one character sequence per field.
pub struct SettingsView {
    pub default_mirror: Seq<char>,
    pub cache_dir: Seq<char>,
    pub rootfs_dir: Seq<char>,
    pub cmd_rootfs: Seq<char>,
    pub release: Seq<char>,
    pub output_dir: Seq<char>,
}

impl View for Settings {
    type V = SettingsView;

    open spec fn view(&self) -> SettingsView {
        SettingsView {
            default_mirror: self.default_mirror@,
            cache_dir: self.cache_dir@,
            rootfs_dir: self.rootfs_dir@,
            cmd_rootfs: self.cmd_rootfs@,
            release: self.release@,
            output_dir: self.output_dir@,
        }
    }
}

/// The default settings rooted at a home directory.
pub open spec fn spec_default_settings(home: Seq<char>) -> SettingsView {
    SettingsView {
        default_mirror: "https://dl-cdn.alpinelinux.org/alpine/"@,
        cache_dir: spec_concat_path(home, ".cache/ALPack"@),
        rootfs_dir: spec_concat_path(home, ".ALPack"@),
        cmd_rootfs: "proot"@,
        release: "latest-stable"@,
        output_dir: Seq::<char>::empty(),
    }
}

impl Settings {
    /// The default settings based on the given home directory: the
    /// ptrace backend, the stock Alpine mirror and the latest stable
    /// release.
    pub fn with_home(home: &str) -> (s: Settings)
        ensures
            s@ == spec_default_settings(home@),
    {
        Settings {
            default_mirror: String::from_str("https://dl-cdn.alpinelinux.org/alpine/"),
            cache_dir: concat_path(home, ".cache/ALPack"),
            rootfs_dir: concat_path(home, ".ALPack"),
            cmd_rootfs: String::from_str("proot"),
            release: String::from_str("latest-stable"),
            output_dir: String::new(),
        }
    }

    /// The rootfs directory of one invocation: an environment override
    /// wins over the configured directory.
    pub fn set_rootfs(&self, env_rootfs: Option<String>) -> (r: String)
        ensures
            match env_rootfs {
                Some(v) => r == v,
                None => r@ == self.rootfs_dir@,
            },
    {
        match env_rootfs {
            Some(v) => v,
            None => self.rootfs_dir.clone(),
        }
    }

    /// The cache directory of one invocation: an environment override
    /// wins over the configured directory.
    pub fn set_cache_dir(&self, env_cache: Option<String>) -> (r: String)
        ensures
            match env_cache {
                Some(v) => r == v,
                None => r@ == self.cache_dir@,
            },
    {
        match env_cache {
            Some(v) => v,
            None => self.cache_dir.clone(),
        }
    }
}

} // verus!
