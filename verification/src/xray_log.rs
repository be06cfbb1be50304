//! What the log of an Xray process says.

use crate::text::{lines, lines_of, texts, trim, trimmed};
use vstd::prelude::*;
use vstd::string::*;

verus! {

/// The last line that holds more than white space, without the white space around it.
pub open spec fn last_entry(found: Seq<Seq<char>>) -> Option<Seq<char>>
    decreases found.len(),
{
    if found.len() == 0 {
        None
    } else if trimmed(found.last()).len() > 0 {
        Some(trimmed(found.last()))
    } else {
        last_entry(found.drop_last())
    }
}

/// What is said of a log: its last line that is not blank.
pub open spec fn log_summary(content: Seq<char>) -> Seq<char> {
    "xray log: "@ + match last_entry(lines(content)) {
        Some(entry) => entry,
        None => "no Xray log output"@,
    }
}

/// Sums a log up by its last line that is not blank.
pub fn summarize_xray_log(content: &str) -> (summary: String)
    ensures
        summary@ == log_summary(content@),
{
    let found = lines_of(content);
    let ghost all = texts(found@);
    let mut i: usize = found.len();
    let mut summary = "xray log: ".to_owned();
    assert(all.take(i as int) =~= all);
    while i > 0
        invariant
            i <= found.len(),
            all == texts(found@),
            all == lines(content@),
            last_entry(all) == last_entry(all.take(i as int)),
            summary@ == "xray log: "@,
        decreases i,
    {
        let ghost known = all.take(i as int);
        i -= 1;
        assert(known.last() == found[i as int]@);
        assert(known.drop_last() =~= all.take(i as int));
        let entry = trim(found[i].as_str());
        if !entry.as_str().is_empty() {
            summary.append(entry.as_str());
            return summary;
        }
    }
    summary.append("no Xray log output");
    summary
}

} // verus!
