//! The command resolver: given a run mode and a platform, produces the
//! command line that launches the worker process. Pure; it holds no state.

use vstd::prelude::*;
use vstd::string::StringExecFns;

verus! {

/// Whether the application runs from a development tree or as a packaged build.
#[derive(Clone, Copy, PartialEq, Eq, Structural, Debug)]
pub enum RunMode {
    Debug,
    Production,
}

/// The operating-system family the application runs on. `Other` stands for
/// every family besides the three recognized ones.
#[derive(Clone, Copy, PartialEq, Eq, Structural, Debug)]
pub enum Platform {
    Windows,
    MacOs,
    Linux,
    Other,
}

/// Why a command line could not be resolved.
#[derive(Clone, Copy, PartialEq, Eq, Structural, Debug)]
pub enum ResolutionError {
    /// The platform is none of the three recognized families.
    UnsupportedPlatform,
    /// The application data directory could not be determined (production mode).
    AppDirUnavailable,
}

/// A resolved, immutable command line for the worker process. Produced fresh
/// on every start attempt; never cached.
#[derive(Clone, PartialEq, Eq, Debug)]
pub struct LaunchSpec {
    /// The program to launch: an interpreter name in debug mode, the path of
    /// the bundled worker executable in production mode.
    pub program: String,
    /// The arguments handed to the program, in order.
    pub args: Vec<String>,
    /// Extra environment variables set in the child's environment.
    pub env_overrides: Vec<(String, String)>,
}

/// The views of a sequence of owned strings.
pub open spec fn strings_view(v: Seq<String>) -> Seq<Seq<char>> {
    v.map_values(|s: String| s@)
}

/// The views of a sequence of environment overrides.
pub open spec fn env_view(v: Seq<(String, String)>) -> Seq<(Seq<char>, Seq<char>)> {
    v.map_values(|p: (String, String)| (p.0@, p.1@))
}

/// The view of an optional application data directory.
pub open spec fn app_dir_view(o: Option<String>) -> Option<Seq<char>> {
    match o {
        None => None,
        Some(s) => Some(s@),
    }
}

/// The interpreter launched in debug mode: the `.exe`-style name on Windows,
/// `python3` on every other platform.
pub open spec fn debug_program(platform: Platform) -> Seq<char> {
    if platform is Windows {
        "python"@
    } else {
        "python3"@
    }
}

/// The fixed module-invocation arguments used in debug mode.
pub open spec fn debug_args() -> Seq<Seq<char>> {
    seq!["-m"@, "aya.tauri_bridge"@]
}

/// The resources subdirectory of the application data directory, per platform
/// family. Meaningful only for the three recognized families.
pub open spec fn resources_dir(platform: Platform) -> Seq<char> {
    if platform is MacOs {
        "Resources"@
    } else {
        "resources"@
    }
}

/// The file name of the bundled worker executable, per platform family.
pub open spec fn worker_binary(platform: Platform) -> Seq<char> {
    if platform is Windows {
        "aya_bridge.exe"@
    } else {
        "aya_bridge"@
    }
}

/// The path of the bundled worker executable in production mode, written with
/// `/` as the canonical separator.
pub open spec fn production_path(app_dir: Seq<char>, platform: Platform) -> Seq<char> {
    app_dir + "/"@ + resources_dir(platform) + "/"@ + worker_binary(platform)
}

/// What `resolve` returns, as a function of its inputs: the program and the
/// argument list on success, or the reason resolution fails. In production
/// mode a missing application data directory is reported before an
/// unrecognized platform.
pub open spec fn resolve_spec(
    mode: RunMode,
    platform: Platform,
    app_dir: Option<Seq<char>>,
) -> Result<(Seq<char>, Seq<Seq<char>>), ResolutionError> {
    match mode {
        RunMode::Debug => Ok((debug_program(platform), debug_args())),
        RunMode::Production => match app_dir {
            None => Err(ResolutionError::AppDirUnavailable),
            Some(d) => {
                if platform is Other {
                    Err(ResolutionError::UnsupportedPlatform)
                } else {
                    Ok((production_path(d, platform), Seq::empty()))
                }
            },
        },
    }
}

/// Resolves the command line that launches the worker process.
///
/// In debug mode: the platform's interpreter plus the fixed module-invocation
/// arguments. In production mode: the bundled worker executable under the
/// platform's resources subdirectory of the application data directory, with
/// no arguments. No environment overrides are set here.
pub fn resolve(mode: RunMode, platform: Platform, app_data_dir: Option<String>) -> (r: Result<
    LaunchSpec,
    ResolutionError,
>)
    ensures
        match r {
            Ok(ls) => resolve_spec(mode, platform, app_dir_view(app_data_dir)) == Ok::<
                _,
                ResolutionError,
            >((ls.program@, strings_view(ls.args@))) && ls.env_overrides@.len() == 0,
            Err(e) => resolve_spec(mode, platform, app_dir_view(app_data_dir)) == Err::<
                (Seq<char>, Seq<Seq<char>>),
                _,
            >(e),
        },
{
    match mode {
        RunMode::Debug => {
            let program = if platform == Platform::Windows {
                String::from_str("python")
            } else {
                String::from_str("python3")
            };
            let mut args: Vec<String> = Vec::new();
            args.push(String::from_str("-m"));
            args.push(String::from_str("aya.tauri_bridge"));
            proof {
                assert(strings_view(args@) =~~= debug_args());
            }
            Ok(LaunchSpec { program, args, env_overrides: Vec::new() })
        },
        RunMode::Production => match app_data_dir {
            None => Err(ResolutionError::AppDirUnavailable),
            Some(dir) => {
                if platform == Platform::Other {
                    return Err(ResolutionError::UnsupportedPlatform);
                }
                let mut path = dir;
                path.append("/");
                if platform == Platform::MacOs {
                    path.append("Resources");
                } else {
                    path.append("resources");
                }
                path.append("/");
                if platform == Platform::Windows {
                    path.append("aya_bridge.exe");
                } else {
                    path.append("aya_bridge");
                }
                let args: Vec<String> = Vec::new();
                proof {
                    assert(strings_view(args@) =~~= Seq::<Seq<char>>::empty());
                }
                Ok(LaunchSpec { program: path, args, env_overrides: Vec::new() })
            },
        },
    }
}

/// The name of the optional credential variable forwarded from the
/// supervisor's own environment into the child's environment.
pub open spec fn credential_name() -> Seq<char> {
    "GEMINI_API_KEY"@
}

/// Appends the optional credential to a launch specification's environment
/// overrides. The credential's absence is not an error: the specification is
/// returned unchanged.
pub fn apply_credential(ls: LaunchSpec, credential: Option<String>) -> (r: LaunchSpec)
    ensures
        r.program@ == ls.program@,
        strings_view(r.args@) == strings_view(ls.args@),
        match credential {
            None => env_view(r.env_overrides@) == env_view(ls.env_overrides@),
            Some(v) => env_view(r.env_overrides@) == env_view(ls.env_overrides@).push(
                (credential_name(), v@),
            ),
        },
{
    let ghost orig_env = ls.env_overrides@;
    let mut out = ls;
    match credential {
        None => out,
        Some(v) => {
            out.env_overrides.push((String::from_str("GEMINI_API_KEY"), v));
            proof {
                assert(env_view(out.env_overrides@) =~~= env_view(orig_env).push(
                    (credential_name(), v@),
                ));
            }
            out
        },
    }
}

} // verus!
