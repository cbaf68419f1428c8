//! Mirror and repository URI management.
//!
//! Combines mirrors, release branches, and the machine architecture into
//! the download URL of the rootfs tarball and the repository list written
//! into the guest.

use vstd::prelude::*;
use vstd::string::StrSliceExecFns;
use vstd::string::StringExecFns;

use crate::settings::Settings;
use crate::strutil::str_eq;

verus! {

/// An optional override, or the empty sequence.
pub open spec fn spec_opt_or_empty(o: Option<Seq<char>>) -> Seq<char> {
    match o {
        Some(s) => s,
        None => Seq::<char>::empty(),
    }
}

/// The rootfs tarball base URL: `<mirror><release>/releases/<arch>/`.
pub open spec fn spec_mirror_url(m: Seq<char>, rel: Seq<char>, arch: Seq<char>) -> Seq<char> {
    m + rel + "/releases/"@ + arch + "/"@
}

/// The guest's repository list: `main` and `community`, plus `testing`
/// exactly for the edge release.
pub open spec fn spec_repository_list(m: Seq<char>, rel: Seq<char>) -> Seq<char> {
    m + rel + "/main\n"@ + m + rel + "/community"@ + (if rel == "edge"@ {
        "\n"@ + m + rel + "/testing"@
    } else {
        Seq::<char>::empty()
    })
}

/// Manager for Alpine Linux mirror and release metadata.
#[derive(Clone, Debug)]
pub struct Mirror {
    /// The base URL of the Alpine mirror.
    pub mirror: Option<String>,
    /// The target release version or branch.
    pub release: Option<String>,
}

impl Mirror {
    /// Creates a new Mirror instance with optional overrides.
    pub fn new(mirror: Option<String>, release: Option<String>) -> (m: Mirror)
        ensures
            m.mirror == mirror,
            m.release == release,
    {
        Mirror { mirror, release }
    }

    /// Fills a missing or empty mirror or release from the configured
    /// defaults; always succeeds.
    pub fn run(&mut self, sett: &Settings) -> (r: Result<(), String>)
        ensures
            r is Ok,
            final(self).mirror.deep_view() == (if spec_opt_or_empty(
                old(self).mirror.deep_view(),
            ).len() == 0 {
                Some(sett.default_mirror@)
            } else {
                old(self).mirror.deep_view()
            }),
            final(self).release.deep_view() == (if spec_opt_or_empty(
                old(self).release.deep_view(),
            ).len() == 0 {
                Some(sett.release@)
            } else {
                old(self).release.deep_view()
            }),
    {
        let mirror_empty = match &self.mirror {
            Some(m) => m.as_str().unicode_len() == 0,
            None => true,
        };
        if mirror_empty {
            self.mirror = Some(sett.default_mirror.clone());
        }
        let release_empty = match &self.release {
            Some(r) => r.as_str().unicode_len() == 0,
            None => true,
        };
        if release_empty {
            self.release = Some(sett.release.clone());
        }
        Ok(())
    }

    /// Constructs the base URL for fetching the rootfs tarball.
    pub fn get_mirror(&self, arch: &str) -> (r: String)
        ensures
            r@ == spec_mirror_url(
                spec_opt_or_empty(self.mirror.deep_view()),
                spec_opt_or_empty(self.release.deep_view()),
                arch@,
            ),
    {
        let mut s = match &self.mirror {
            Some(m) => m.clone(),
            None => String::new(),
        };
        match &self.release {
            Some(rel) => s.append(rel.as_str()),
            None => {},
        }
        s.append("/releases/");
        s.append(arch);
        s.append("/");
        proof {
            assert(s@ =~= spec_mirror_url(
                spec_opt_or_empty(self.mirror.deep_view()),
                spec_opt_or_empty(self.release.deep_view()),
                arch@,
            ));
        }
        s
    }

    /// Generates the multi-line repository list for the guest's package
    /// manager.
    pub fn get_repository(&self) -> (r: String)
        ensures
            r@ == spec_repository_list(
                spec_opt_or_empty(self.mirror.deep_view()),
                spec_opt_or_empty(self.release.deep_view()),
            ),
    {
        let m: &str = match &self.mirror {
            Some(s) => s.as_str(),
            None => "",
        };
        let rel: &str = match &self.release {
            Some(s) => s.as_str(),
            None => "",
        };
        proof {
            reveal_strlit("");
            assert(""@ =~= Seq::<char>::empty());
        }
        let mut s = String::from_str(m);
        s.append(rel);
        s.append("/main\n");
        s.append(m);
        s.append(rel);
        s.append("/community");
        if str_eq(rel, "edge") {
            s.append("\n");
            s.append(m);
            s.append(rel);
            s.append("/testing");
        }
        proof {
            assert(s@ =~= spec_repository_list(
                spec_opt_or_empty(self.mirror.deep_view()),
                spec_opt_or_empty(self.release.deep_view()),
            ));
        }
        s
    }
}

} // verus!
