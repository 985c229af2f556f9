//! The arms of a match on `self`: their lines, and which of them an
//! instance takes.
//!
//! Every derived method is one match. Its text is the lines of its arms;
//! what it gives for an instance is the expression of the first arm that
//! matches the instance. Matching is by the name of the variant: the arm of
//! a variant matches the instances of that variant, and the arm `_` matches
//! every instance.

use crate::text::join;
use vstd::prelude::*;
use vstd::string::StringExecFns;

verus! {

/// The indentation of a match arm.
pub const THREE_TABS: &'static str = "            ";

/// What the head of a match arm matches: the instances of the variant of
/// one name, or every instance.
pub enum ArmHead {
    Variant(Seq<char>),
    Otherwise,
}

/// One arm of a match on `self`: what it matches, the text of its head, and
/// the text of the expression that it gives.
pub struct Arm {
    pub head: ArmHead,
    pub pattern: Seq<char>,
    pub body: Seq<char>,
}

/// The line of an arm.
pub open spec fn arm_line(pattern: Seq<char>, body: Seq<char>) -> Seq<char> {
    THREE_TABS@ + pattern + " => "@ + body + ","@
}

/// The lines of the arms, in order.
pub open spec fn arm_lines(arms: Seq<Arm>) -> Seq<Seq<char>> {
    Seq::new(arms.len(), |i: int| arm_line(arms[i].pattern, arms[i].body))
}

/// The arms of a match, one on each line.
pub open spec fn arms_text(arms: Seq<Arm>) -> Seq<char> {
    join(arm_lines(arms), "\n"@)
}

/// Whether an arm with the head `head` matches an instance of the variant
/// `variant`.
pub open spec fn arm_matches(head: ArmHead, variant: Seq<char>) -> bool {
    match head {
        ArmHead::Variant(name) => name == variant,
        ArmHead::Otherwise => true,
    }
}

/// The expression that a match with the arms `arms` gives for an instance
/// of the variant `variant`: that of the first arm that matches it.
pub open spec fn taken_body(arms: Seq<Arm>, variant: Seq<char>) -> Option<Seq<char>>
    decreases arms.len(),
{
    if arms.len() == 0 {
        None
    } else if arm_matches(arms[0].head, variant) {
        Some(arms[0].body)
    } else {
        taken_body(arms.drop_first(), variant)
    }
}

/// Renders the line of a match arm.
pub fn arm_to_string(pattern: &str, body: &str) -> (out: String)
    ensures
        out@ == arm_line(pattern@, body@),
{
    let mut out = String::from_str(THREE_TABS);
    out.append(pattern);
    out.append(" => ");
    out.append(body);
    out.append(",");
    out
}

/// A match whose arms stand for variants of different names, one arm for
/// each, gives for an instance of the variant of the arm at `k` the
/// expression of that arm.
pub proof fn lemma_taken_body_at(arms: Seq<Arm>, names: Seq<Seq<char>>, k: int)
    requires
        arms.len() == names.len(),
        0 <= k < arms.len(),
        forall|i: int| 0 <= i < arms.len() ==> (#[trigger] arms[i]).head == ArmHead::Variant(names[i]),
        forall|i: int, j: int|
            0 <= i < j < names.len() ==> #[trigger] names[i] != #[trigger] names[j],
    ensures
        taken_body(arms, names[k]) == Some(arms[k].body),
    decreases arms.len(),
{
    if k > 0 {
        lemma_taken_body_at(arms.drop_first(), names.drop_first(), k - 1);
    }
}

} // verus!
