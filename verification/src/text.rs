//! Text processing: uppercasing with a fixed prefix.

use vstd::prelude::*;
use vstd::string::StringExecFns;

verus! {

/// The case-mapped uppercase form of `s` under the host environment's
/// standard case-mapping rules, as `str::to_uppercase` computes it.
pub uninterp spec fn upper_of(s: Seq<char>) -> Seq<char>;

/// What `process_text` returns for the input `s`.
pub open spec fn processed_of(s: Seq<char>) -> Seq<char> {
    "Processed by QuestMind: "@ + upper_of(s)
}

/// Relies on `str::to_uppercase`: the result is the Unicode uppercase
/// mapping of the input, which depends on its characters alone, and the
/// uppercase form of the empty string is empty.
#[verifier::external_body]
fn uppercase(s: &str) -> (r: String)
    ensures
        r@ == upper_of(s@),
        s@.len() == 0 ==> r@.len() == 0,
{
    s.to_uppercase()
}

/// Returns the fixed prefix `Processed by QuestMind: ` followed by the
/// case-mapped uppercase form of `text`.
pub fn process_text(text: &str) -> (r: String)
    ensures
        r@ == processed_of(text@),
{
    let up = uppercase(text);
    let mut r = String::new();
    r.append("Processed by QuestMind: ");
    r.append(up.as_str());
    proof {
        assert(r@ =~= processed_of(text@));
    }
    r
}

} // verus!
