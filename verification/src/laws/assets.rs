//! What holds of the files of an Xray process.

use crate::assets::stamped;
use crate::laws::text::law_decimal_stands_for_number;
use crate::text::decimal;
use vstd::prelude::*;

verus! {

/// A file is called after what it is for, when it was made, and what it holds.
pub proof fn law_file_name(tag: Seq<char>, stamp: u128, extension: Seq<char>)
    ensures
        stamped(tag, stamp, extension) == tag + "-"@ + decimal(stamp as nat) + extension,
{
}

/// Files for the same purpose that were made at different times have different names.
pub proof fn law_file_names_differ(tag: Seq<char>, a: u128, b: u128, extension: Seq<char>)
    requires
        a != b,
    ensures
        stamped(tag, a, extension) != stamped(tag, b, extension),
{
    let start = tag + "-"@;
    let one = stamped(tag, a, extension);
    let other = stamped(tag, b, extension);
    law_decimal_stands_for_number(a as nat);
    law_decimal_stands_for_number(b as nat);
    if one == other {
        assert(one.subrange(start.len() as int, one.len() - extension.len()) =~= decimal(a as nat));
        assert(other.subrange(start.len() as int, other.len() - extension.len()) =~= decimal(
            b as nat,
        ));
    }
}

} // verus!
