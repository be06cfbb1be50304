//! Reading the lists of server URIs, one after the other.

use crate::config::text_outcome;
use crate::scan::{push_debug_line, with_line, ScanModel, ScanState};
use vstd::prelude::*;
use vstd::string::*;

verus! {

/// What came of the request for a list.
pub enum FetchOutcome {
    /// The text of the list.
    Text(String),
    /// The list was found, but could not be read.
    Unreadable(String),
    /// The request was answered with an error.
    Refused(String),
    /// The request was not answered.
    Unanswered(String),
}

/// What came of the request for a list, as a mathematical value.
pub enum FetchModel {
    Text(Seq<char>),
    Unreadable(Seq<char>),
    Refused(Seq<char>),
    Unanswered(Seq<char>),
}

impl View for FetchOutcome {
    type V = FetchModel;

    open spec fn view(&self) -> FetchModel {
        match self {
            FetchOutcome::Text(text) => FetchModel::Text(text@),
            FetchOutcome::Unreadable(error) => FetchModel::Unreadable(error@),
            FetchOutcome::Refused(error) => FetchModel::Refused(error@),
            FetchOutcome::Unanswered(error) => FetchModel::Unanswered(error@),
        }
    }
}

/// What was read so far.
pub struct SourceFetch {
    /// The texts that were read, each with a line feed behind it.
    pub collected: String,
    /// Tells whether any list was read.
    pub any_ok: bool,
}

/// What was read so far, as mathematical values.
pub struct FetchedModel {
    pub collected: Seq<char>,
    pub any_ok: bool,
}

impl View for SourceFetch {
    type V = FetchedModel;

    open spec fn view(&self) -> FetchedModel {
        FetchedModel { collected: self.collected@, any_ok: self.any_ok }
    }
}

/// Nothing read yet.
pub open spec fn nothing_read() -> FetchedModel {
    FetchedModel { collected: Seq::empty(), any_ok: false }
}

/// What is read once the outcome of one more request is known.
pub open spec fn read_more(fetched: FetchedModel, outcome: FetchModel) -> FetchedModel {
    match outcome {
        FetchModel::Text(text) => FetchedModel {
            collected: (fetched.collected + text).push('\n'),
            any_ok: true,
        },
        _ => fetched,
    }
}

/// The line that goes to the log for a list that was not read.
pub open spec fn failure_line(url: Seq<char>, outcome: FetchModel) -> Option<Seq<char>> {
    match outcome {
        FetchModel::Text(_) => None,
        FetchModel::Unreadable(error) => Some("Failed to read source "@ + url + ": "@ + error),
        FetchModel::Refused(error) => Some("Source request failed for "@ + url + ": "@ + error),
        FetchModel::Unanswered(error) => Some("Failed to fetch source "@ + url + ": "@ + error),
    }
}

/// The state of the scan once the outcome of one more request is known.
pub open spec fn fetch_logged(state: ScanModel, url: Seq<char>, outcome: FetchModel) -> ScanModel {
    match failure_line(url, outcome) {
        Some(line) => with_line(state, line),
        None => state,
    }
}

/// What was read in all, for the outcomes of all requests.
pub open spec fn read_all(outcomes: Seq<FetchModel>) -> FetchedModel
    decreases outcomes.len(),
{
    if outcomes.len() == 0 {
        nothing_read()
    } else {
        read_more(read_all(outcomes.drop_last()), outcomes.last())
    }
}

/// The text of all lists, or why there is none.
pub open spec fn fetched_text(fetched: FetchedModel) -> Result<Seq<char>, Seq<char>> {
    if fetched.any_ok {
        Ok(fetched.collected)
    } else {
        Err("Failed to fetch any source list"@)
    }
}

/// A line of the log that names a list and an error.
fn error_line(start: &str, url: &str, error: &str) -> (line: String)
    ensures
        line@ == start@ + url@ + ": "@ + error@,
{
    let mut line = start.to_owned();
    line.append(url);
    line.append(": ");
    line.append(error);
    line
}

/// The message for a client that could not be built, without which no list can be read.
pub fn client_failure(error: &str) -> (message: String)
    ensures
        message@ == "Failed to build HTTP client: "@ + error@,
{
    let mut message = "Failed to build HTTP client: ".to_owned();
    message.append(error);
    message
}

impl SourceFetch {
    /// Nothing read yet.
    pub fn new() -> (fetch: Self)
        ensures
            fetch@ == nothing_read(),
    {
        SourceFetch { collected: String::new(), any_ok: false }
    }

    /// Notes what came of the request for one list: its text is kept, an error goes to the log.
    pub fn record(&mut self, state: &mut ScanState, url: &str, outcome: FetchOutcome)
        ensures
            final(self)@ == read_more(old(self)@, outcome@),
            final(state)@ == fetch_logged(old(state)@, url@, outcome@),
    {
        match outcome {
            FetchOutcome::Text(text) => {
                self.any_ok = true;
                self.collected.append(text.as_str());
                self.collected.push('\n');
            },
            FetchOutcome::Unreadable(error) => {
                push_debug_line(state, error_line("Failed to read source ", url, error.as_str()));
            },
            FetchOutcome::Refused(error) => {
                push_debug_line(
                    state,
                    error_line("Source request failed for ", url, error.as_str()),
                );
            },
            FetchOutcome::Unanswered(error) => {
                push_debug_line(state, error_line("Failed to fetch source ", url, error.as_str()));
            },
        }
    }
}

/// The text of all lists that were read; an error if there are none.
pub fn fetch_source_text(fetch: SourceFetch) -> (text: Result<String, String>)
    ensures
        text_outcome(text) == fetched_text(fetch@),
{
    if !fetch.any_ok {
        return Err("Failed to fetch any source list".to_owned());
    }
    Ok(fetch.collected)
}

} // verus!
