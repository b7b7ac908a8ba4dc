//! The shortcut resolution rule: a successfully read target is used after
//! trimming, and a failed read falls back to the original shortcut path, so
//! a broken shortcut still shows some icon instead of aborting resolution.

use vstd::prelude::*;
use vstd::string::StringExecFns;
use crate::text::trim_spec;
use crate::text::trim_ws;

verus! {

/// The path resolution continues on after a shortcut-target read: the
/// trimmed target on success, the original shortcut path on failure. This
/// never fails from the pipeline's point of view.
pub fn shortcut_target_or_fallback(shortcut_path: &str, target: Option<&str>) -> (r: String)
    ensures
        match target {
            Some(t) => r@ == trim_spec(t@),
            None => r@ == shortcut_path@,
        },
{
    match target {
        Some(t) => String::from_str(trim_ws(t)),
        None => String::from_str(shortcut_path),
    }
}

} // verus!
