//! Paths, as text: the directory a command runs in and the application root.
//!
//! The library keeps every path as a string and leaves the reading of a path
//! to `std::path`: whether a path has a root or is absolute, how two paths are
//! joined and what the parent of a path is are results of `std::path::Path`,
//! for the platform the library is built for. The absolute form of a path is
//! a result of `path_absolutize`. The contracts below speak of those results
//! by name.

use vstd::prelude::*;
use path_absolutize::Absolutize;
use crate::manifest::opt_text;

verus! {

/// What `std::path::Path::has_root` returns for the path with this text.
pub uninterp spec fn path_has_root(path: Seq<char>) -> bool;

/// The text of what `std::path::Path::join` returns for the path `base` and
/// the path `rel`.
pub uninterp spec fn path_join(base: Seq<char>, rel: Seq<char>) -> Seq<char>;

/// The text of what `std::path::Path::parent` returns for the path with this
/// text, `None` where the path has no parent.
pub uninterp spec fn path_parent(path: Seq<char>) -> Option<Seq<char>>;

/// What `std::path::Path::is_absolute` returns for the path with this text.
pub uninterp spec fn path_is_absolute(path: Seq<char>) -> bool;

/// The text of what `path_absolutize::Absolutize::absolutize_from` returns for
/// the path `path` and the current directory `cwd`: the absolute form of
/// `path`, without `.` and `..`, as seen from `cwd`.
pub uninterp spec fn path_absolutized_from(path: Seq<char>, cwd: Seq<char>) -> Seq<char>;

/// Makes `std::io::Error` known as a type of which nothing is seen: a value
/// of it is carried from where resolving a path failed to the error that
/// reports it.
#[verifier::external_type_specification]
#[verifier::external_body]
pub struct ExIoError(std::io::Error);

/// The text of an optional string slice.
pub open spec fn opt_str_text(s: Option<&str>) -> Option<Seq<char>> {
    match s {
        Some(t) => Some(t@),
        None => None,
    }
}

/// Calls `std::path::Path::has_root` on `path`. Trusted: the result is the
/// one that the name `path_has_root` stands for.
#[verifier::external_body]
fn has_root(path: &str) -> (rooted: bool)
    ensures
        rooted == path_has_root(path@),
{
    std::path::Path::new(path).has_root()
}

/// Calls `std::path::Path::join` on `base` with `rel`. Trusted: the text of
/// the joined path is the one that the name `path_join` stands for. Both
/// arguments are valid Unicode, so the joined path is too and its text is
/// taken without loss.
#[verifier::external_body]
fn join(base: &str, rel: &str) -> (joined: String)
    ensures
        joined@ == path_join(base@, rel@),
{
    std::path::Path::new(base).join(rel).to_string_lossy().into_owned()
}

/// Calls `std::path::Path::parent` on `path`. Trusted: the result is the one
/// that the name `path_parent` stands for. A parent of a path that is valid
/// Unicode is valid Unicode, so its text is taken without loss.
#[verifier::external_body]
fn parent(path: &str) -> (dir: Option<String>)
    ensures
        opt_text(dir) == path_parent(path@),
{
    std::path::Path::new(path).parent().map(|p| p.to_string_lossy().into_owned())
}

/// Calls `std::path::Path::is_absolute` on `path`. Trusted: the result is the
/// one that the name `path_is_absolute` stands for.
#[verifier::external_body]
fn is_absolute(path: &str) -> (absolute: bool)
    ensures
        absolute == path_is_absolute(path@),
{
    std::path::Path::new(path).is_absolute()
}

/// Calls `path_absolutize::Absolutize::absolutize` on `path`, which reads the
/// current directory of the process and then is `absolutize_from` on `path`
/// and that directory. Trusted: a path that comes back is what
/// `absolutize_from` gives for `path` and some current directory. Which
/// directory that is, and whether the call succeeds, is not claimed.
/// `Ok(None)` stands for an absolute path that is not valid Unicode.
#[verifier::external_body]
fn absolutize_path(path: &str) -> (r: Result<Option<String>, std::io::Error>)
    ensures
        r matches Ok(Some(absolute)) ==> (exists|cwd: Seq<char>|
            absolute@ == #[trigger] path_absolutized_from(path@, cwd)),
{
    let absolute = std::path::Path::new(path).absolutize()?;
    Ok(absolute.to_str().map(|s| s.to_owned()))
}

/// A configured working directory that has a root. Such a directory is
/// refused, never made relative.
#[derive(Debug, PartialEq, Eq)]
pub struct InvalidWorkdirError {
    pub workdir: String,
}

/// The diagnostic for a working directory that has a root.
pub open spec fn invalid_workdir_message() -> Seq<char> {
    "The workdir specified in the application file must be relative."@
}

impl InvalidWorkdirError {
    /// The diagnostic.
    pub fn message(&self) -> (msg: String)
        ensures
            msg@ == invalid_workdir_message(),
    {
        "The workdir specified in the application file must be relative.".to_owned()
    }
}

/// Why the directory that holds a file could not be found.
#[derive(Debug)]
pub enum PathError {
    /// The path of the file has no parent.
    NoParent { file: String },
    /// The absolute form of `path` could not be resolved.
    Unresolved { path: String, source: std::io::Error },
    /// The absolute form of `path` is not valid Unicode.
    NotUnicode { path: String },
    /// What resolving `path` gave is not an absolute path.
    NotAbsolute { path: String },
}

/// The diagnostic for a path error. For `Unresolved` it says what was being
/// done; the cause stays in the field `source`.
pub open spec fn path_error_message(e: PathError) -> Seq<char> {
    match e {
        PathError::NoParent { file } => "Failed to get containing directory for file '"@ + file@
            + "'"@,
        PathError::Unresolved { path, .. } => "Failed to resolve absolute path to: "@ + path@,
        PathError::NotUnicode { path } => "The absolute path is not valid Unicode for: "@ + path@,
        PathError::NotAbsolute { path } => "The resolved path is not absolute for: "@ + path@,
    }
}

impl PathError {
    /// The diagnostic.
    pub fn message(&self) -> (msg: String)
        ensures
            msg@ == path_error_message(*self),
    {
        match self {
            PathError::NoParent { file } => {
                let mut msg = "Failed to get containing directory for file '".to_owned();
                msg.append(file.as_str());
                msg.append("'");
                msg
            },
            PathError::Unresolved { path, .. } => {
                let mut msg = "Failed to resolve absolute path to: ".to_owned();
                msg.append(path.as_str());
                msg
            },
            PathError::NotUnicode { path } => {
                let mut msg = "The absolute path is not valid Unicode for: ".to_owned();
                msg.append(path.as_str());
                msg
            },
            PathError::NotAbsolute { path } => {
                let mut msg = "The resolved path is not absolute for: ".to_owned();
                msg.append(path.as_str());
                msg
            },
        }
    }
}

/// The directory a command runs in: the application root where no working
/// directory is configured, else the application root joined with it. `None`
/// where the configured directory has a root.
pub open spec fn resolved_workdir(app_dir: Seq<char>, workdir: Option<Seq<char>>) -> Option<
    Seq<char>,
> {
    match workdir {
        None => Some(app_dir),
        Some(w) => if path_has_root(w) {
            None
        } else {
            Some(path_join(app_dir, w))
        },
    }
}

/// Accepts a configured working directory of which `rooted` says whether it
/// has a root: a rooted one is an error that names it.
pub fn require_relative(workdir: &str, rooted: bool) -> (r: Result<(), InvalidWorkdirError>)
    ensures
        rooted <==> r is Err,
        r matches Err(e) ==> e.workdir@ == workdir@,
{
    if rooted {
        Err(InvalidWorkdirError { workdir: workdir.to_owned() })
    } else {
        Ok(())
    }
}

/// Constructs the directory in which to run a command of a component.
///
/// Without a configured working directory it is the application root itself.
/// A configured directory that has a root is refused with an error that names
/// it. Any other is joined to the application root.
pub fn construct_workdir(app_dir: &str, workdir: Option<&str>) -> (r: Result<
    String,
    InvalidWorkdirError,
>)
    ensures
        r is Ok <==> resolved_workdir(app_dir@, opt_str_text(workdir)) is Some,
        r matches Ok(dir) ==> Some(dir@) == resolved_workdir(app_dir@, opt_str_text(workdir)),
        r matches Err(e) ==> Some(e.workdir@) == opt_str_text(workdir),
{
    match workdir {
        None => Ok(app_dir.to_owned()),
        Some(w) => {
            match require_relative(w, has_root(w)) {
                Err(e) => Err(e),
                Ok(()) => Ok(join(app_dir, w)),
            }
        },
    }
}

/// The directory that holds `file`, given what the parent of its path is.
pub fn containing_dir(file: &str, parent: Option<String>) -> (r: Result<String, PathError>)
    ensures
        match parent {
            Some(dir) => r == Ok::<String, PathError>(dir),
            None => r matches Err(PathError::NoParent { file: f }) && f@ == file@,
        },
{
    match parent {
        Some(dir) => Ok(dir),
        None => Err(PathError::NoParent { file: file.to_owned() }),
    }
}

/// Whether `absolute` is the absolute form of `path` as seen from some
/// current directory.
pub open spec fn is_absolute_form_of(absolute: Seq<char>, path: Seq<char>) -> bool {
    exists|cwd: Seq<char>| absolute == #[trigger] path_absolutized_from(path, cwd)
}

/// The absolute form of `path`, given how resolving it ended: the resolved
/// path, `Ok(None)` for one that is not valid Unicode, or the failure.
pub fn absolutized(path: &str, outcome: Result<Option<String>, std::io::Error>) -> (r: Result<
    String,
    PathError,
>)
    ensures
        match outcome {
            Ok(Some(absolute)) => r == Ok::<String, PathError>(absolute),
            Ok(None) => r matches Err(PathError::NotUnicode { path: p }) && p@ == path@,
            Err(cause) => r matches Err(PathError::Unresolved { path: p, source }) && p@ == path@
                && source == cause,
        },
{
    match outcome {
        Ok(Some(absolute)) => Ok(absolute),
        Ok(None) => Err(PathError::NotUnicode { path: path.to_owned() }),
        Err(cause) => Err(PathError::Unresolved { path: path.to_owned(), source: cause }),
    }
}

/// Accepts what resolving `path` gave, of which `absolute` says whether it is
/// an absolute path: one that is not is an error that names `path`.
pub fn require_absolute(path: &str, resolved: String, absolute: bool) -> (r: Result<
    String,
    PathError,
>)
    ensures
        absolute ==> r == Ok::<String, PathError>(resolved),
        !absolute ==> (r matches Err(PathError::NotAbsolute { path: p }) && p@ == path@),
{
    if absolute {
        Ok(resolved)
    } else {
        Err(PathError::NotAbsolute { path: path.to_owned() })
    }
}

/// Whether `e` says that the absolute form of the path with the text `path`
/// could not be had.
pub open spec fn fails_to_resolve(e: PathError, path: Seq<char>) -> bool {
    match e {
        PathError::Unresolved { path: p, .. } => p@ == path,
        PathError::NotUnicode { path: p } => p@ == path,
        PathError::NotAbsolute { path: p } => p@ == path,
        PathError::NoParent { .. } => false,
    }
}

/// Returns the absolute form of `path`.
///
/// What is returned is the absolute form of `path` as seen from the current
/// directory of the process, and it is an absolute path. No success is
/// promised, since the current directory may not be had: a failure names
/// `path`.
pub fn absolutize(path: &str) -> (r: Result<String, PathError>)
    ensures
        r matches Ok(absolute) ==> is_absolute_form_of(absolute@, path@) && path_is_absolute(
            absolute@,
        ),
        r matches Err(e) ==> fails_to_resolve(e, path@),
{
    match absolutized(path, absolutize_path(path)) {
        Ok(resolved) => {
            let absolute = is_absolute(resolved.as_str());
            require_absolute(path, resolved, absolute)
        },
        Err(e) => Err(e),
    }
}

/// Returns the absolute form of the directory that holds `file`.
///
/// A path without a parent fails with `NoParent`, which names the file. Else
/// what is returned is the absolute form of the parent as seen from the
/// current directory of the process, and it is an absolute path; a failure
/// comes from resolving the parent and names the parent.
pub fn parent_dir(file: &str) -> (r: Result<String, PathError>)
    ensures
        match path_parent(file@) {
            None => (r matches Err(PathError::NoParent { file: f }) && f@ == file@),
            Some(parent) => match r {
                Ok(dir) => is_absolute_form_of(dir@, parent) && path_is_absolute(dir@),
                Err(e) => fails_to_resolve(e, parent),
            },
        },
{
    match containing_dir(file, parent(file)) {
        Ok(dir) => absolutize(dir.as_str()),
        Err(e) => Err(e),
    }
}

} // verus!
