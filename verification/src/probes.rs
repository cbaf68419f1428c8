//! Host resource probing model.
//!
//! The optional bind candidates are computed from the live host
//! filesystem.  The probing itself is plain I/O and happens outside the
//! library; its observations arrive here as a `HostProbes` value, and the
//! candidate list is a pure function of that value, so identical host
//! state yields an identical candidate list.

use vstd::prelude::*;

use crate::strutil::push_tok;

verus! {

/// Observations of the host filesystem made immediately before a plan is
/// built: existence of the six fixed optional paths, and every icon-theme
/// `cursors` directory found under the host icon tree.
///
/// The fixed fields are probed in one stable order; the order of
/// `cursor_dirs` is whatever directory enumeration produced and carries no
/// meaning.
#[derive(Clone, Debug)]
pub struct HostProbes {
    /// `/etc/asound.conf` exists.
    pub asound_conf: bool,
    /// `/etc/fonts` exists.
    pub etc_fonts: bool,
    /// `/usr/share/font-config` exists.
    pub font_config: bool,
    /// `/usr/share/fontconfig` exists.
    pub fontconfig: bool,
    /// `/usr/share/fonts` exists.
    pub share_fonts: bool,
    /// `/usr/share/themes` exists.
    pub themes: bool,
    /// Full paths of the `cursors` subdirectories of the host icon themes.
    pub cursor_dirs: Vec<String>,
}

impl HostProbes {
    /// Probes with nothing found.
    pub fn none() -> (r: HostProbes)
        ensures
            !r.asound_conf && !r.etc_fonts && !r.font_config && !r.fontconfig && !r.share_fonts
                && !r.themes,
            r.cursor_dirs.deep_view() == Seq::<Seq<char>>::empty(),
    {
        let r = HostProbes {
            asound_conf: false,
            etc_fonts: false,
            font_config: false,
            fontconfig: false,
            share_fonts: false,
            themes: false,
            cursor_dirs: Vec::new(),
        };
        proof {
            assert(r.cursor_dirs.deep_view() =~= Seq::<Seq<char>>::empty());
        }
        r
    }
}

/// The six fixed optional host paths that exist, in the one stable probe
/// order.
pub open spec fn spec_fixed_candidates(p: HostProbes) -> Seq<Seq<char>> {
    (if p.asound_conf {
        seq!["/etc/asound.conf"@]
    } else {
        Seq::<Seq<char>>::empty()
    }) + (if p.etc_fonts {
        seq!["/etc/fonts"@]
    } else {
        Seq::<Seq<char>>::empty()
    }) + (if p.font_config {
        seq!["/usr/share/font-config"@]
    } else {
        Seq::<Seq<char>>::empty()
    }) + (if p.fontconfig {
        seq!["/usr/share/fontconfig"@]
    } else {
        Seq::<Seq<char>>::empty()
    }) + (if p.share_fonts {
        seq!["/usr/share/fonts"@]
    } else {
        Seq::<Seq<char>>::empty()
    }) + (if p.themes {
        seq!["/usr/share/themes"@]
    } else {
        Seq::<Seq<char>>::empty()
    })
}

/// The fixed-candidate portion of the optional bind list: each of the six
/// fixed paths that the probes saw, in the stable order.
pub fn fixed_candidates(p: &HostProbes) -> (r: Vec<String>)
    ensures
        r.deep_view() == spec_fixed_candidates(*p),
{
    let mut v: Vec<String> = Vec::new();
    proof {
        assert(v.deep_view() =~= Seq::<Seq<char>>::empty());
    }
    if p.asound_conf {
        push_tok(&mut v, "/etc/asound.conf");
    }
    if p.etc_fonts {
        push_tok(&mut v, "/etc/fonts");
    }
    if p.font_config {
        push_tok(&mut v, "/usr/share/font-config");
    }
    if p.fontconfig {
        push_tok(&mut v, "/usr/share/fontconfig");
    }
    if p.share_fonts {
        push_tok(&mut v, "/usr/share/fonts");
    }
    if p.themes {
        push_tok(&mut v, "/usr/share/themes");
    }
    proof {
        assert(v.deep_view() =~= spec_fixed_candidates(*p));
    }
    v
}

/// If none of the six fixed optional host paths exist, the fixed-candidate
/// portion of the optional bind list is empty.
pub proof fn lemma_no_fixed_paths_no_candidates(p: HostProbes)
    requires
        !p.asound_conf,
        !p.etc_fonts,
        !p.font_config,
        !p.fontconfig,
        !p.share_fonts,
        !p.themes,
    ensures
        spec_fixed_candidates(p) == Seq::<Seq<char>>::empty(),
{
    assert(spec_fixed_candidates(p) =~= Seq::<Seq<char>>::empty());
}

} // verus!
