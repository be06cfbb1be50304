//! What holds of the summary of a log.

use crate::text::{lines, trimmed};
use crate::xray_log::{last_entry, log_summary};
use vstd::prelude::*;

verus! {

/// The summary of a log is its last line that is not blank, without the white space around it;
/// there is none exactly if all lines are blank.
pub proof fn law_summary_is_last_line(found: Seq<Seq<char>>)
    ensures
        match last_entry(found) {
            Some(entry) => entry.len() > 0 && exists|i: int|
                {
                    &&& 0 <= i < found.len()
                    &&& trimmed(#[trigger] found[i]) == entry
                    &&& forall|j: int| i < j < found.len() ==> trimmed(#[trigger] found[j]).len() == 0
                },
            None => forall|i: int| 0 <= i < found.len() ==> trimmed(#[trigger] found[i]).len() == 0,
        },
    decreases found.len(),
{
    if found.len() > 0 {
        let fewer = found.drop_last();
        law_summary_is_last_line(fewer);
        if trimmed(found.last()).len() > 0 {
            assert(trimmed(found[found.len() - 1]) == trimmed(found.last()));
        } else {
            assert forall|j: int| 0 <= j < found.len() && (j < fewer.len() ==> trimmed(
                fewer[j],
            ).len() == 0) implies trimmed(#[trigger] found[j]).len() == 0 by {}
            if let Some(entry) = last_entry(fewer) {
                let i = choose|i: int|
                    {
                        &&& 0 <= i < fewer.len()
                        &&& trimmed(#[trigger] fewer[i]) == entry
                        &&& forall|j: int|
                            i < j < fewer.len() ==> trimmed(#[trigger] fewer[j]).len() == 0
                    };
                assert(trimmed(found[i]) == entry);
                assert forall|j: int| i < j < found.len() implies trimmed(
                    #[trigger] found[j],
                ).len() == 0 by {
                    if j < fewer.len() {
                        assert(fewer[j] == found[j]);
                    }
                }
            }
        }
    }
}

/// What is said of a log is what its last line that is not blank says, or that there is none.
pub proof fn law_log_is_summed_up(content: Seq<char>)
    ensures
        (forall|i: int|
            0 <= i < lines(content).len() ==> trimmed(#[trigger] lines(content)[i]).len() == 0)
            ==> log_summary(content) == "xray log: "@ + "no Xray log output"@,
        forall|i: int|
            0 <= i < lines(content).len() && trimmed(#[trigger] lines(content)[i]).len() > 0
                && (forall|j: int|
                i < j < lines(content).len() ==> trimmed(#[trigger] lines(content)[j]).len() == 0)
                ==> log_summary(content) == "xray log: "@ + trimmed(lines(content)[i]),
{
    let found = lines(content);
    law_summary_is_last_line(found);
    if let Some(entry) = last_entry(found) {
        let at = choose|i: int|
            {
                &&& 0 <= i < found.len()
                &&& trimmed(#[trigger] found[i]) == entry
                &&& forall|j: int| i < j < found.len() ==> trimmed(#[trigger] found[j]).len() == 0
            };
        assert forall|i: int|
            0 <= i < found.len() && trimmed(#[trigger] found[i]).len() > 0 && (forall|j: int|
                i < j < found.len() ==> trimmed(#[trigger] found[j]).len() == 0) implies i
            == at by {
            if i < at {
                assert(trimmed(found[at]).len() == 0);
            }
        }
    }
}

} // verus!
