//! Honest glance markers for the Quant Runway rail's stages: a stage the engine
//! cannot prove reads "not tracked", never "soon".

use vstd::prelude::*;
use crate::strs;

verus! {

/// How a runway stage reads at a glance.
#[derive(Debug, Clone, Copy, PartialEq, Eq)]
pub enum StageMark {
    /// The rung you're on now.
    Current,
    /// Reached, with engine evidence.
    Done,
    /// Not reached yet — the engine can prove it isn't done.
    Pending,
    /// The engine can't tell yet.
    Untracked,
}

/// A stage's one-word glance marker plus how it reads.
#[derive(Debug, Clone, PartialEq, Eq)]
pub struct StageMarker {
    pub label: Option<String>,
    pub mark: StageMark,
}

/// The marker `stage_marker` yields: label characters and mark.
pub open spec fn marker_view(reached: Seq<char>, is_current: bool) -> (Option<Seq<char>>, StageMark) {
    if is_current {
        (Some("now"@), StageMark::Current)
    } else if reached == "yes"@ {
        (None, StageMark::Done)
    } else if reached == "no"@ {
        (Some("to do"@), StageMark::Pending)
    } else {
        (Some("not tracked"@), StageMark::Untracked)
    }
}

/// Map a stage's engine `reached` state ("yes" / "no" / anything else) and
/// whether it is the current rung to its glance marker. The current rung wins.
pub fn stage_marker(reached: &str, is_current: bool) -> (r: StageMarker)
    ensures
        (strs::opt_view(r.label), r.mark) == marker_view(reached@, is_current),
{
    if is_current {
        return StageMarker { label: Some(strs::own("now")), mark: StageMark::Current };
    }
    if strs::eq_str(reached, "yes") {
        StageMarker { label: None, mark: StageMark::Done }
    } else if strs::eq_str(reached, "no") {
        StageMarker { label: Some(strs::own("to do")), mark: StageMark::Pending }
    } else {
        StageMarker { label: Some(strs::own("not tracked")), mark: StageMark::Untracked }
    }
}

} // verus!
