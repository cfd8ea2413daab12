//! The availability probe's decision. The surrounding program tries to spawn
//! the tool's probe command and checks each well-known fallback location on
//! disk; this module turns those observed facts into the probe verdict. Only
//! whether the probe process could be created and run matters — a failing
//! exit code still proves the binary exists — and the fallback list is
//! consulted in order, first hit wins.

use vstd::prelude::*;
use crate::catalog::ToolSpec;

verus! {

/// Whether a tool is currently invocable, and where it was found.
#[derive(Debug)]
pub enum ProbeResult {
    /// The probe process could be created and ran: the tool resolves through
    /// the search path.
    OnPath,
    /// The probe spawn failed, but the tool exists at this well-known path.
    AtFallback { path: String },
    /// Neither the spawn nor any fallback location shows the tool.
    Unavailable,
}

/// Some fallback location was observed to exist.
pub open spec fn any_fallback(found: Seq<bool>) -> bool {
    exists|i: int| 0 <= i < found.len() && found[i]
}

/// The probe verdict counts as available.
pub open spec fn probe_available(r: ProbeResult) -> bool {
    !(r is Unavailable)
}

/// Decides availability of `ts` from the observed facts: `spawn_ok` says
/// whether the probe process could be created and run to completion, and
/// `found[i]` whether the i-th fallback location of `ts` exists on disk.
/// The result names the first existing fallback location when the spawn
/// failed.
pub fn evaluate_probe(ts: &ToolSpec, spawn_ok: bool, found: &Vec<bool>) -> (r: ProbeResult)
    requires
        found@.len() == ts.fallback_paths@.len(),
    ensures
        probe_available(r) <==> (spawn_ok || any_fallback(found@)),
        r is OnPath <==> spawn_ok,
        (r matches ProbeResult::AtFallback { path } ==> exists|i: int|
            0 <= i < found@.len() && found@[i] && path@ == ts.fallback_paths@[i]@
                && (forall|j: int| 0 <= j < i ==> !found@[j])),
{
    if spawn_ok {
        return ProbeResult::OnPath;
    }
    let mut i: usize = 0;
    while i < found.len()
        invariant
            !spawn_ok,
            found@.len() == ts.fallback_paths@.len(),
            i <= found@.len(),
            forall|j: int| 0 <= j < i ==> !found@[j],
        decreases found@.len() - i,
    {
        if found[i] {
            let path = ts.fallback_paths[i].clone();
            proof {
                assert(found@[i as int] && path@ == ts.fallback_paths@[i as int]@
                    && (forall|j: int| 0 <= j < i as int ==> !found@[j]));
            }
            return ProbeResult::AtFallback { path };
        }
        i = i + 1;
    }
    ProbeResult::Unavailable
}

} // verus!
