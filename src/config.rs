//! The root directory under which every repository is kept.
use vstd::prelude::*;
use crate::error::RepoError;
use crate::layout::{join_path, path_join};
use crate::text::{has_prefix, same_text, slice, starts_with};

verus! {

/// The root used when none is configured.
pub const DEFAULT_NEOGHQ_ROOT: &'static str = "~/src/repos";

pub open spec fn default_root() -> Seq<char> {
    seq!['~', '/', 's', 'r', 'c', '/', 'r', 'e', 'p', 'o', 's']
}

/// What the environment supplies: a configured root, if any, and the home
/// directory, if known.
#[derive(Debug, Clone)]
pub struct Env {
    pub neoghq_root: Option<String>,
    pub home: Option<String>,
}

/// The configuration every operation runs with.
#[derive(Debug, Clone)]
pub struct Config {
    pub root: String,
}

/// The root as configured, before expansion.
pub open spec fn root_setting(neoghq_root: Option<String>) -> Seq<char> {
    match neoghq_root {
        Some(r) => r@,
        None => default_root(),
    }
}

/// `r` is `~` or starts with `~/`, so it names a place under the home directory.
pub open spec fn under_home(r: Seq<char>) -> bool {
    r == seq!['~'] || starts_with(r, seq!['~', '/'])
}

/// What follows `~/` in `r`.
pub open spec fn home_relative(r: Seq<char>) -> Seq<char> {
    if r.len() >= 2 {
        r.skip(2)
    } else {
        Seq::empty()
    }
}

/// `r` with a leading `~` replaced by the home directory; `None` when that is
/// needed and no home directory is known.
pub open spec fn expand_root(r: Seq<char>, home: Option<Seq<char>>) -> Option<Seq<char>> {
    if under_home(r) {
        match home {
            Some(h) => Some(path_join(h, home_relative(r))),
            None => None,
        }
    } else {
        Some(r)
    }
}

impl Config {
    /// The configuration for `env`: the configured root, or the default one,
    /// with `~` expanded against the home directory. Resolving the result
    /// against the filesystem (symlinks, `.` and `..`) is left to the caller.
    pub fn load(env: Env) -> (r: Result<Config, RepoError>)
        ensures
            match r {
                Ok(c) => expand_root(
                    root_setting(env.neoghq_root),
                    match env.home {
                        Some(h) => Some(h@),
                        None => None,
                    },
                ) == Some(c.root@),
                Err(e) => e == RepoError::HomeNotSet && under_home(root_setting(env.neoghq_root))
                    && env.home is None,
            },
    {
        proof {
            reveal_strlit("~/src/repos");
            reveal_strlit("~");
            reveal_strlit("~/");
        }
        assert(DEFAULT_NEOGHQ_ROOT@ =~= default_root());
        assert("~"@ =~= seq!['~']);
        assert("~/"@ =~= seq!['~', '/']);
        let root = match env.neoghq_root {
            Some(r) => r,
            None => String::from_str(DEFAULT_NEOGHQ_ROOT),
        };
        if same_text(root.as_str(), "~") || has_prefix(root.as_str(), "~/") {
            match env.home {
                Some(h) => {
                    let n = root.as_str().unicode_len();
                    let rest = if n >= 2 {
                        slice(root.as_str(), 2, n)
                    } else {
                        String::new()
                    };
                    Ok(Config { root: join_path(h.as_str(), rest.as_str()) })
                },
                None => Err(RepoError::HomeNotSet),
            }
        } else {
            Ok(Config { root })
        }
    }
}

} // verus!
