//! The loader's decisions: which configuration layers apply, and when a
//! failed layer is fatal. Reading files is the caller's business; this
//! module works on the parse results handed back as plain values.

use vstd::prelude::*;
use crate::record::{empty_record, is_merged, Config};
use crate::text::str_eq;

verus! {

/// The fatal outcome of configuration loading: an explicitly named
/// config file could not be read or parsed. Implicit layers never fail
/// fatally.
#[derive(Debug, PartialEq, Eq)]
pub enum ConfigError {
    ExplicitLayerFailed,
}

/// The value following the first `--config` in the argument list, or
/// nothing when `--config` is absent or stands last.
pub open spec fn config_path_from(args: Seq<Seq<char>>, i: int) -> Option<Seq<char>>
    decreases args.len() - i,
{
    if i < 0 || i >= args.len() {
        None
    } else if args[i] == "--config"@ {
        if i + 1 < args.len() {
            Some(args[i + 1])
        } else {
            None
        }
    } else {
        config_path_from(args, i + 1)
    }
}

/// The explicit config path named by the argument list, if any.
pub open spec fn config_path_of(args: Seq<Seq<char>>) -> Option<Seq<char>> {
    config_path_from(args, 0)
}

/// Find the `--config <path>` pair in the raw argument list, before any
/// other flag handling.
pub fn extract_config_path(args: &Vec<String>) -> (r: Option<String>)
    ensures
        r.deep_view() == config_path_of(args.deep_view()),
{
    let ghost argsv = args.deep_view();
    let mut i: usize = 0;
    while i < args.len()
        invariant
            i <= args.len(),
            argsv == args.deep_view(),
            config_path_of(argsv) == config_path_from(argsv, i as int),
        decreases args.len() - i,
    {
        let a: &str = args[i].as_str();
        proof {
            assert(a@ == argsv[i as int]);
        }
        if str_eq(a, "--config") {
            if i + 1 < args.len() {
                let v = args[i + 1].clone();
                proof {
                    assert(v@ == argsv[i + 1]);
                }
                return Some(v);
            } else {
                return None;
            }
        }
        i += 1;
    }
    None
}

/// Decide the file-derived configuration from the outcome of each
/// layer's read, already parsed into records by the caller.
///
/// With an explicit `--config` requested, that layer is the only one
/// consulted: its record is the whole result, and its failure (absence
/// or malformed content, handed in as `None`) is the one fatal error.
/// Otherwise the optional home-directory layer and the optional
/// project-directory layer are folded, project over home, a missing
/// layer contributing nothing.
pub fn load_config(
    explicit_requested: bool,
    explicit: Option<Config>,
    user: Option<Config>,
    project: Option<Config>,
) -> (r: Result<Config, ConfigError>)
    ensures
        r is Err <==> explicit_requested && explicit is None,
        r is Err ==> r == Err::<Config, ConfigError>(ConfigError::ExplicitLayerFailed),
        explicit_requested && explicit is Some ==> r == Ok::<Config, ConfigError>(explicit->0),
        !explicit_requested ==> (r matches Ok(c) && {
            let base = if user is Some {
                user->0
            } else {
                empty_record()
            };
            match project {
                Some(p) => is_merged(base, p, c),
                None => c == base,
            }
        }),
{
    if explicit_requested {
        match explicit {
            Some(c) => Ok(c),
            None => Err(ConfigError::ExplicitLayerFailed),
        }
    } else {
        let base = match user {
            Some(c) => c,
            None => Config::empty(),
        };
        match project {
            Some(p) => Ok(base.merge(p)),
            None => Ok(base),
        }
    }
}

} // verus!
