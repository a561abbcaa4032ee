//! Synchronisation of the store file with a remote place, through an
//! external copy tool: which call is to be made, and what its outcome means.
//! Running the tool is left to the caller.

use vstd::prelude::*;
use vstd::string::*;
use crate::error::{ConfigError, ExternalToolError, Setting};
use crate::text::text_of;

verus! {

/// The way in which the store file is copied.
#[derive(Clone, Copy, Debug, PartialEq, Eq, Structural)]
pub enum Direction {
    /// From this machine to the remote place.
    ToCloud,
    /// From the remote place to this machine.
    ToLocal,
}

impl Direction {
    /// The setting that names the remote end of a copy in this direction.
    pub fn setting(&self) -> (r: Setting)
        ensures
            r == match *self {
                Direction::ToCloud => Setting::CloudPath,
                Direction::ToLocal => Setting::LocalPath,
            },
    {
        match self {
            Direction::ToCloud => Setting::CloudPath,
            Direction::ToLocal => Setting::LocalPath,
        }
    }
}

/// The texts of a list of strings, in the same order.
pub open spec fn texts(strings: Seq<String>) -> Seq<Seq<char>> {
    Seq::new(strings.len(), |i: int| strings[i]@)
}

/// The name of the copy tool.
pub fn copy_tool() -> (r: &'static str)
    ensures
        r@ == "rclone"@,
{
    "rclone"
}

/// The arguments of the copy tool for a copy from `source` to
/// `destination` that leaves newer files at the destination alone.
pub open spec fn copy_arguments(source: Seq<char>, destination: Seq<char>) -> Seq<Seq<char>> {
    seq!["copy"@, source, destination, "--update"@]
}

/// Makes up the arguments of the copy tool for a copy from `source` to
/// `destination`.
pub fn copy_call(source: &str, destination: &str) -> (r: Vec<String>)
    ensures
        texts(r@) == copy_arguments(source@, destination@),
{
    let mut arguments: Vec<String> = Vec::new();
    arguments.push(String::from_str("copy"));
    arguments.push(String::from_str(source));
    arguments.push(String::from_str(destination));
    arguments.push(String::from_str("--update"));
    arguments
}

/// What a synchronisation is to do, given its two ends: the fixed end,
/// which this machine knows, and the configured end, which may be unset.
/// Towards the cloud the fixed end is the source; towards this machine it
/// is the destination.
pub open spec fn sync_plan(direction: Direction, fixed: Seq<char>, configured: Option<Seq<char>>)
    -> Result<Seq<Seq<char>>, ConfigError> {
    match configured {
        None => Err(
            ConfigError::Missing(
                match direction {
                    Direction::ToCloud => Setting::CloudPath,
                    Direction::ToLocal => Setting::LocalPath,
                },
            ),
        ),
        Some(path) => Ok(
            match direction {
                Direction::ToCloud => copy_arguments(fixed, path),
                Direction::ToLocal => copy_arguments(path, fixed),
            },
        ),
    }
}

/// The view of a planned call.
pub open spec fn plan_view(r: Result<Vec<String>, ConfigError>) -> Result<
    Seq<Seq<char>>,
    ConfigError,
> {
    match r {
        Ok(arguments) => Ok(texts(arguments@)),
        Err(e) => Err(e),
    }
}

/// Plans the copy of the store file at `db_path` to the place that
/// `CLOUD_PATH` names. Fails where `CLOUD_PATH` is not set.
pub fn sync_in_cloud(db_path: &str, cloud_path: Option<&str>) -> (r: Result<
    Vec<String>,
    ConfigError,
>)
    ensures
        plan_view(r) == sync_plan(Direction::ToCloud, db_path@, text_of(cloud_path)),
{
    match cloud_path {
        Some(destination) => Ok(copy_call(db_path, destination)),
        None => Err(ConfigError::Missing(Setting::CloudPath)),
    }
}

/// Plans the copy from the place that `LOCAL_PATH` names into the
/// directory `home`. Fails where `LOCAL_PATH` is not set.
pub fn sync_in_local(home: &str, local_path: Option<&str>) -> (r: Result<Vec<String>, ConfigError>)
    ensures
        plan_view(r) == sync_plan(Direction::ToLocal, home@, text_of(local_path)),
{
    match local_path {
        Some(source) => Ok(copy_call(source, home)),
        None => Err(ConfigError::Missing(Setting::LocalPath)),
    }
}

/// What is reported after the copy tool has run: the confirmation for a
/// run that succeeded, or the failure with what the tool wrote to its error
/// stream.
pub fn sync_report(success: bool, diagnostics: &str) -> (r: Result<&'static str, ExternalToolError>)
    ensures
        success ==> r is Ok && r->Ok_0@ == "\u{2705} Sync successful!"@,
        !success ==> r is Err && r->Err_0 is Failed && r->Err_0->Failed_0@ == diagnostics@,
{
    if success {
        Ok("\u{2705} Sync successful!")
    } else {
        Err(ExternalToolError::Failed(String::from_str(diagnostics)))
    }
}

} // verus!
