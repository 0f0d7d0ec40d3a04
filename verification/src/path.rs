//! Where the configuration lives. The directory and file are chosen, in order
//! of preference, from the command line, `MUXW_CONFIG_PATH`,
//! `XDG_CONFIG_HOME`, `HOME`, and the current directory. Reading the
//! environment and the file system is left to the caller: the functions here
//! decide what to look up and what it gives.

use vstd::prelude::*;

verus! {

/// The path that `std::path::Path::join` makes of `base` and `rest`.
pub uninterp spec fn path_join(base: Seq<char>, rest: Seq<char>) -> Seq<char>;

/// The path that `std::path::Path::parent` gives of `path`.
pub uninterp spec fn path_parent(path: Seq<char>) -> Option<Seq<char>>;

/// `std::path::Path::join`: `rest` appended to `base` as a path component
/// (or replacing `base` when `rest` is absolute); the result depends on the
/// two paths alone and is named `path_join`.
#[verifier::external_body]
fn join_path(base: &str, rest: &str) -> (r: String)
    ensures
        r@ == path_join(base@, rest@),
{
    std::path::Path::new(base).join(rest).to_string_lossy().into_owned()
}

/// `std::path::Path::parent`: the path without its last component, none for
/// a root or an empty path; named `path_parent`.
#[verifier::external_body]
fn parent_path(path: &str) -> (r: Option<String>)
    ensures
        match r {
            Some(p) => path_parent(path@) == Some(p@),
            None => path_parent(path@) is None,
        },
{
    match std::path::Path::new(path).parent() {
        Some(p) => Some(p.to_string_lossy().into_owned()),
        None => None,
    }
}

/// The program's name, which names its configuration directory.
pub open spec fn app_name() -> Seq<char> {
    seq!['m', 'u', 'x', 'w']
}

/// The name of the configuration file.
pub open spec fn config_filename() -> Seq<char> {
    seq!['c', 'o', 'n', 'f', 'i', 'g', '.', 'l', 'u', 'a']
}

/// `.config`.
pub open spec fn dot_config() -> Seq<char> {
    seq!['.', 'c', 'o', 'n', 'f', 'i', 'g']
}

/// Why a path was refused.
#[derive(Debug, Clone, Copy, PartialEq, Eq, Structural)]
pub enum InvalidPathReason {
    /// A `~` path needs `HOME`, which is not set.
    HomeNotSet,
    /// Only `~` and `~/...` are expanded.
    UnsupportedTilde,
    /// A configuration file needs a parent directory.
    NoParent,
}

/// The words that name each reason.
pub open spec fn reason_message(reason: InvalidPathReason) -> Seq<char> {
    match reason {
        InvalidPathReason::HomeNotSet => "HOME environment variable not set"@,
        InvalidPathReason::UnsupportedTilde => "unsupported tilde expansion (Report an issue)"@,
        InvalidPathReason::NoParent => "path has no parent directory"@,
    }
}

impl InvalidPathReason {
    /// The reason in words.
    pub fn message(&self) -> (r: &'static str)
        ensures
            r@ == reason_message(*self),
    {
        match self {
            InvalidPathReason::HomeNotSet => "HOME environment variable not set",
            InvalidPathReason::UnsupportedTilde => "unsupported tilde expansion (Report an issue)",
            InvalidPathReason::NoParent => "path has no parent directory",
        }
    }
}

/// A path that cannot be used.
#[derive(Debug, Clone)]
pub enum PathError {
    InvalidPath { input: String, reason: InvalidPathReason },
}

/// The refusal of `input` for `reason`.
pub open spec fn invalid(e: PathError, input: Seq<char>, reason: InvalidPathReason) -> bool {
    match e {
        PathError::InvalidPath { input: i, reason: r } => i@ == input && r == reason,
    }
}

/// What `expand_tilde` gives: the path unchanged when it does not start with
/// `~`, else `HOME` for `~` and `HOME` joined with the rest for `~/...`.
pub open spec fn expanded(path: Seq<char>, home: Option<Seq<char>>) -> Result<
    Seq<char>,
    InvalidPathReason,
> {
    if !(path.len() > 0 && path[0] == '~') {
        Ok(path)
    } else if home is None {
        Err(InvalidPathReason::HomeNotSet)
    } else if path.len() == 1 {
        Ok(home->0)
    } else if path[1] == '/' {
        Ok(path_join(home->0, path.subrange(2, path.len() as int)))
    } else {
        Err(InvalidPathReason::UnsupportedTilde)
    }
}

/// The characters of an optional string slice.
pub open spec fn opt_chars(o: Option<&str>) -> Option<Seq<char>> {
    match o {
        Some(s) => Some(s@),
        None => None,
    }
}

/// Expands a leading `~` with `home`, the value of `HOME` if it is set.
pub fn expand_tilde(path: &str, home: Option<&str>) -> (r: Result<String, PathError>)
    ensures
        match expanded(path@, opt_chars(home)) {
            Ok(p) => r matches Ok(s) && s@ == p,
            Err(reason) => r matches Err(e) && invalid(e, path@, reason),
        },
{
    let len = path.unicode_len();
    if len == 0 || path.get_char(0) != '~' {
        return Ok(path.to_owned());
    }
    let home = match home {
        Some(h) => h,
        None => {
            return Err(
                PathError::InvalidPath {
                    input: path.to_owned(),
                    reason: InvalidPathReason::HomeNotSet,
                },
            );
        },
    };
    if len == 1 {
        Ok(home.to_owned())
    } else if path.get_char(1) == '/' {
        let rest = path.substring_char(2, len);
        Ok(join_path(home, rest))
    } else {
        Err(PathError::InvalidPath { input: path.to_owned(), reason: InvalidPathReason::UnsupportedTilde })
    }
}

/// What the environment says about the configuration's place; each field is
/// the variable's value, none when it is unset or not Unicode.
pub struct ConfigEnv {
    /// `MUXW_CONFIG_PATH`.
    pub muxw_config_path: Option<String>,
    /// `XDG_CONFIG_HOME`.
    pub xdg_config_home: Option<String>,
    /// `HOME`.
    pub home: Option<String>,
}

/// A configuration path as the file system resolved it: its canonical
/// absolute form and whether it is a directory.
pub struct ResolvedLocation {
    pub absolute: String,
    pub is_dir: bool,
}

/// The configuration directory and file.
#[derive(Debug)]
pub struct Path {
    pub config_dir: String,
    pub config_file: String,
}

/// The next step in finding the configuration.
#[derive(Debug)]
pub enum PathPlan {
    /// Resolve this path on the file system, then call
    /// [`Path::get_config_paths_from_cli`].
    Resolve(String),
    /// The paths are known.
    Ready(Path),
    /// Use the current directory: call [`Path::get_config_paths_from_current_dir`].
    UseCurrentDir,
}

/// The characters of an optional string.
pub open spec fn opt_string(o: Option<String>) -> Option<Seq<char>> {
    match o {
        Some(s) => Some(s@),
        None => None,
    }
}

/// The (directory, file) pair under a configuration directory.
pub open spec fn dir_pair(dir: Seq<char>) -> (Seq<char>, Seq<char>) {
    (dir, path_join(dir, config_filename()))
}

/// The (directory, file) pair that a resolved location gives: a directory
/// holds `config.lua`, a file sits in its parent.
pub open spec fn location_pair(absolute: Seq<char>, is_dir: bool) -> Result<
    (Seq<char>, Seq<char>),
    InvalidPathReason,
> {
    if is_dir {
        Ok(dir_pair(absolute))
    } else {
        match path_parent(absolute) {
            Some(p) => Ok((p, absolute)),
            None => Err(InvalidPathReason::NoParent),
        }
    }
}

/// The pair under `XDG_CONFIG_HOME`, when it is set and not empty.
pub open spec fn xdg_pair(xdg: Option<Seq<char>>) -> Option<(Seq<char>, Seq<char>)> {
    match xdg {
        Some(x) => if x.len() > 0 {
            Some(dir_pair(path_join(x, app_name())))
        } else {
            None
        },
        None => None,
    }
}

/// The pair under `HOME/.config`, when `HOME` is set and not empty.
pub open spec fn home_pair(home: Option<Seq<char>>) -> Option<(Seq<char>, Seq<char>)> {
    match home {
        Some(h) => if h.len() > 0 {
            Some(dir_pair(path_join(path_join(h, dot_config()), app_name())))
        } else {
            None
        },
        None => None,
    }
}

/// The candidate path that `MUXW_CONFIG_PATH` names, tilde-expanded, when it
/// is set and not empty.
pub open spec fn env_candidate(env: ConfigEnv) -> Result<Option<Seq<char>>, InvalidPathReason> {
    match env.muxw_config_path {
        Some(p) => if p@.len() > 0 {
            match expanded(p@, opt_string(env.home)) {
                Ok(e) => Ok(Some(e)),
                Err(reason) => Err(reason),
            }
        } else {
            Ok(None)
        },
        None => Ok(None),
    }
}

/// A pair of strings holds the pair of character sequences.
pub open spec fn pair_is(r: (String, String), p: (Seq<char>, Seq<char>)) -> bool {
    r.0@ == p.0 && r.1@ == p.1
}

impl Path {
    /// `config.lua`.
    pub fn get_config_filename() -> (r: String)
        ensures
            r@ == config_filename(),
    {
        let r = "config.lua".to_owned();
        proof {
            reveal_strlit("config.lua");
        }
        r
    }

    /// The pair for a directory: the directory and `config.lua` in it.
    fn pair_in_dir(dir: String) -> (r: (String, String))
        ensures
            pair_is(r, dir_pair(dir@)),
    {
        let file = join_path(dir.as_str(), Self::get_config_filename().as_str());
        (dir, file)
    }

    /// The pair for a path given on the command line or in
    /// `MUXW_CONFIG_PATH`, once resolved: a directory holds `config.lua`, a
    /// file sits in its parent directory.
    pub fn get_config_paths_from_cli(location: &ResolvedLocation) -> (r: Result<
        (String, String),
        PathError,
    >)
        ensures
            match location_pair(location.absolute@, location.is_dir) {
                Ok(p) => r matches Ok(pair) && pair_is(pair, p),
                Err(reason) => r matches Err(e) && invalid(e, location.absolute@, reason),
            },
    {
        if location.is_dir {
            Ok(Self::pair_in_dir(location.absolute.clone()))
        } else {
            match parent_path(location.absolute.as_str()) {
                Some(parent) => Ok((parent, location.absolute.clone())),
                None => Err(
                    PathError::InvalidPath {
                        input: location.absolute.clone(),
                        reason: InvalidPathReason::NoParent,
                    },
                ),
            }
        }
    }

    /// The path that `MUXW_CONFIG_PATH` names, tilde-expanded, if it is set
    /// and not empty; it still has to be resolved.
    pub fn get_config_paths_from_env(env: &ConfigEnv) -> (r: Result<Option<String>, PathError>)
        ensures
            match env_candidate(*env) {
                Ok(c) => r matches Ok(o) && opt_string(o) == c,
                Err(reason) => r matches Err(e) && invalid(e, env.muxw_config_path->0@, reason),
            },
    {
        match &env.muxw_config_path {
            Some(p) => {
                if p.as_str().unicode_len() == 0 {
                    return Ok(None);
                }
                let home = match &env.home {
                    Some(h) => Some(h.as_str()),
                    None => None,
                };
                match expand_tilde(p.as_str(), home) {
                    Ok(e) => Ok(Some(e)),
                    Err(e) => Err(e),
                }
            },
            None => Ok(None),
        }
    }

    /// The pair under `XDG_CONFIG_HOME/muxw`, if the variable is set and not
    /// empty.
    pub fn get_config_paths_from_xdg_var(xdg: Option<&str>) -> (r: Option<(String, String)>)
        ensures
            match xdg_pair(opt_chars(xdg)) {
                Some(p) => r matches Some(pair) && pair_is(pair, p),
                None => r is None,
            },
    {
        match xdg {
            Some(x) => {
                if x.unicode_len() == 0 {
                    return None;
                }
                let name = "muxw";
                proof {
                    reveal_strlit("muxw");
                    assert(name@ =~= app_name());
                }
                Some(Self::pair_in_dir(join_path(x, name)))
            },
            None => None,
        }
    }

    /// The pair under `HOME/.config/muxw`, if `HOME` is set and not empty.
    pub fn get_config_paths_from_home_var(home: Option<&str>) -> (r: Option<(String, String)>)
        ensures
            match home_pair(opt_chars(home)) {
                Some(p) => r matches Some(pair) && pair_is(pair, p),
                None => r is None,
            },
    {
        match home {
            Some(h) => {
                if h.unicode_len() == 0 {
                    return None;
                }
                let config = ".config";
                let name = "muxw";
                proof {
                    reveal_strlit(".config");
                    reveal_strlit("muxw");
                    assert(config@ =~= dot_config());
                    assert(name@ =~= app_name());
                }
                let dir = join_path(join_path(h, config).as_str(), name);
                Some(Self::pair_in_dir(dir))
            },
            None => None,
        }
    }

    /// The pair in the current directory.
    pub fn get_config_paths_from_current_dir(current_dir: &str) -> (r: (String, String))
        ensures
            pair_is(r, dir_pair(current_dir@)),
    {
        Self::pair_in_dir(current_dir.to_owned())
    }

    /// The default pair: under `XDG_CONFIG_HOME`, else under `HOME`; none
    /// when neither is usable, in which case the current directory is used.
    pub fn get_config_paths_from_defaults(env: &ConfigEnv) -> (r: Option<(String, String)>)
        ensures
            match xdg_pair(opt_string(env.xdg_config_home)) {
                Some(p) => r matches Some(pair) && pair_is(pair, p),
                None => match home_pair(opt_string(env.home)) {
                    Some(p) => r matches Some(pair) && pair_is(pair, p),
                    None => r is None,
                },
            },
    {
        let xdg = match &env.xdg_config_home {
            Some(x) => Some(x.as_str()),
            None => None,
        };
        if let Some(pair) = Self::get_config_paths_from_xdg_var(xdg) {
            return Some(pair);
        }
        let home = match &env.home {
            Some(h) => Some(h.as_str()),
            None => None,
        };
        Self::get_config_paths_from_home_var(home)
    }

    /// The first step in finding the configuration: a path given on the
    /// command line is resolved as it is; else a non-empty
    /// `MUXW_CONFIG_PATH` is tilde-expanded and resolved; else the defaults
    /// apply.
    pub fn new(config_override: Option<String>, env: &ConfigEnv) -> (r: Result<PathPlan, PathError>)
        ensures
            match config_override {
                Some(p) => r matches Ok(PathPlan::Resolve(c)) && c@ == p@,
                None => match env_candidate(*env) {
                    Err(reason) => r matches Err(e) && invalid(
                        e,
                        env.muxw_config_path->0@,
                        reason,
                    ),
                    Ok(Some(c)) => r matches Ok(PathPlan::Resolve(s)) && s@ == c,
                    Ok(None) => match xdg_pair(opt_string(env.xdg_config_home)) {
                        Some(p) => r matches Ok(PathPlan::Ready(path)) && path.config_dir@ == p.0
                            && path.config_file@ == p.1,
                        None => match home_pair(opt_string(env.home)) {
                            Some(p) => r matches Ok(PathPlan::Ready(path)) && path.config_dir@
                                == p.0 && path.config_file@ == p.1,
                            None => r matches Ok(PathPlan::UseCurrentDir),
                        },
                    },
                },
            },
    {
        if let Some(p) = config_override {
            return Ok(PathPlan::Resolve(p));
        }
        match Self::get_config_paths_from_env(env) {
            Err(e) => Err(e),
            Ok(Some(candidate)) => Ok(PathPlan::Resolve(candidate)),
            Ok(None) => match Self::get_config_paths_from_defaults(env) {
                Some((config_dir, config_file)) => Ok(PathPlan::Ready(Path { config_dir, config_file })),
                None => Ok(PathPlan::UseCurrentDir),
            },
        }
    }
}

/// A non-empty `MUXW_CONFIG_PATH` is always the candidate, whatever it holds:
/// a path that does not start with `~` as it is, `~` as `HOME`, `~/rest` as
/// `HOME` joined with `rest`; a `~` path without `HOME`, or of another `~`
/// form, is refused. An empty or unset variable gives no candidate.
pub proof fn lemma_env_candidate(env: ConfigEnv)
    ensures
        match env.muxw_config_path {
            None => env_candidate(env) == Ok::<Option<Seq<char>>, InvalidPathReason>(None),
            Some(p) => {
                &&& p@.len() == 0 ==> env_candidate(env) == Ok::<
                    Option<Seq<char>>,
                    InvalidPathReason,
                >(None)
                &&& (p@.len() > 0 && p@[0] != '~') ==> env_candidate(env) == Ok::<
                    Option<Seq<char>>,
                    InvalidPathReason,
                >(Some(p@))
                &&& (p@.len() > 0 && p@[0] == '~' && env.home is None) ==> env_candidate(env)
                    == Err::<Option<Seq<char>>, InvalidPathReason>(InvalidPathReason::HomeNotSet)
                &&& (p@ == seq!['~'] && env.home is Some) ==> env_candidate(env) == Ok::<
                    Option<Seq<char>>,
                    InvalidPathReason,
                >(Some(env.home->0@))
                &&& (p@.len() >= 2 && p@[0] == '~' && p@[1] == '/' && env.home is Some)
                    ==> env_candidate(env) == Ok::<Option<Seq<char>>, InvalidPathReason>(
                    Some(path_join(env.home->0@, p@.subrange(2, p@.len() as int))),
                )
                &&& (p@.len() >= 2 && p@[0] == '~' && p@[1] != '/' && env.home is Some)
                    ==> env_candidate(env) == Err::<Option<Seq<char>>, InvalidPathReason>(
                    InvalidPathReason::UnsupportedTilde,
                )
            },
        },
{
}

/// Whenever a directory is chosen, the configuration file is `config.lua`
/// in it; a file that was named explicitly sits in its parent directory.
pub proof fn lemma_file_in_dir(env: ConfigEnv, absolute: Seq<char>, is_dir: bool)
    ensures
        xdg_pair(opt_string(env.xdg_config_home)) matches Some(p) ==> p.1 == path_join(
            p.0,
            config_filename(),
        ),
        home_pair(opt_string(env.home)) matches Some(p) ==> p.1 == path_join(p.0, config_filename()),
        location_pair(absolute, is_dir) matches Ok(p) ==> (if is_dir {
            p.1 == path_join(p.0, config_filename())
        } else {
            p.1 == absolute && path_parent(absolute) == Some(p.0)
        }),
{
}

} // verus!
