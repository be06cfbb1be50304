//! The files of an Xray process, and how the process is started.

use crate::text::{decimal, decimal_text, texts, unit_outcome};
use vstd::prelude::*;
use vstd::string::*;

verus! {

/// The directory, below the one for temporary files, that the files are kept in.
pub const ASSET_DIRECTORY: &'static str = "oghab-vpn";

/// The name of the program.
pub const XRAY_FILE: &'static str = "xray.exe";

/// The name under which the program comes with the application.
pub const EMBEDDED_XRAY_FILE: &'static str = "xray-x64.exe";

/// Tells whether the program has to be written anew: if there is none, or one of another size
/// than the one that comes with the application.
pub fn should_replace_binary(existing_len: Option<u64>, embedded_len: u64) -> (replace: bool)
    ensures
        replace == (existing_len != Some(embedded_len)),
{
    match existing_len {
        Some(len) => len != embedded_len,
        None => true,
    }
}

/// The name of a file made for the given purpose at the given time.
pub open spec fn stamped(tag: Seq<char>, stamp: u128, extension: Seq<char>) -> Seq<char> {
    tag + "-"@ + decimal(stamp as nat) + extension
}

/// The name of a file made for the given purpose at the given time.
fn stamped_name(tag: &str, stamp: u128, extension: &str) -> (name: String)
    ensures
        name@ == stamped(tag@, stamp, extension@),
{
    let mut name = tag.to_owned();
    name.append("-");
    name.append(decimal_text(stamp).as_str());
    name.append(extension);
    name
}

/// The name of the file for a configuration.
pub fn config_file_name(tag: &str, stamp: u128) -> (name: String)
    ensures
        name@ == stamped(tag@, stamp, ".json"@),
{
    stamped_name(tag, stamp, ".json")
}

/// The name of the file for a log.
pub fn log_file_name(tag: &str, stamp: u128) -> (name: String)
    ensures
        name@ == stamped(tag@, stamp, ".log"@),
{
    stamped_name(tag, stamp, ".log")
}

/// The arguments that Xray is started with.
pub fn xray_arguments(config_path: &str) -> (arguments: Vec<String>)
    ensures
        texts(arguments@) == seq!["run"@, "-c"@, config_path@],
{
    let mut arguments: Vec<String> = Vec::new();
    arguments.push("run".to_owned());
    arguments.push("-c".to_owned());
    arguments.push(config_path.to_owned());
    assert(texts(arguments@) =~= seq!["run"@, "-c"@, config_path@]);
    arguments
}

/// What came of the attempt to start Xray.
pub enum SpawnOutcome {
    /// It runs.
    Started,
    /// There is no file for its log.
    NoLogFile(String),
    /// The file for its log cannot be shared.
    NoSharedLogFile(String),
    /// The process could not be started.
    NotStarted(String),
}

/// What came of the attempt to start Xray, as a result.
pub fn spawn_xray(outcome: SpawnOutcome) -> (result: Result<(), String>)
    ensures
        unit_outcome(result) == match outcome {
            SpawnOutcome::Started => Ok::<(), Seq<char>>(()),
            SpawnOutcome::NoLogFile(error) => Err("Failed to create Xray log file: "@ + error@),
            SpawnOutcome::NoSharedLogFile(error) => Err(
                "Failed to clone Xray log file: "@ + error@,
            ),
            SpawnOutcome::NotStarted(error) => Err("Failed to start Xray: "@ + error@),
        },
{
    match outcome {
        SpawnOutcome::Started => Ok(()),
        SpawnOutcome::NoLogFile(error) => {
            let mut message = "Failed to create Xray log file: ".to_owned();
            message.append(error.as_str());
            Err(message)
        },
        SpawnOutcome::NoSharedLogFile(error) => {
            let mut message = "Failed to clone Xray log file: ".to_owned();
            message.append(error.as_str());
            Err(message)
        },
        SpawnOutcome::NotStarted(error) => {
            let mut message = "Failed to start Xray: ".to_owned();
            message.append(error.as_str());
            Err(message)
        },
    }
}

} // verus!
