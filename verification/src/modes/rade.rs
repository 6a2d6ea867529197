//! The RADE digital-voice workspace.
use crate::modes::band_plan::plan_view;
use crate::modes::voice;
use vstd::prelude::*;

verus! {

/// RADE is digital voice, not a second logging workflow: it offers the
/// voice band plan.
pub fn band_plan() -> (r: Vec<(&'static str, u64)>)
    ensures
        plan_view(r@) == voice::band_plan_bands(),
{
    voice::band_plan()
}

} // verus!
