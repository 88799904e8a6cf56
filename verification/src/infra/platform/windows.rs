//! The Windows backend: no host changes yet, only notes.

use vstd::prelude::*;
use crate::config::AppConfig;
use crate::plan::ApplyPlan;
use crate::command::texts;

verus! {

/// The Windows gateway plan: a note that the adapter is not enabled.
pub fn apply_gateway(_cfg: &AppConfig) -> (p: ApplyPlan)
    ensures
        p.spec_steps().len() == 0,
        p.spec_notes() == seq!["Windows gateway adapter currently not enabled (WFP/HNS planned)"@],
{
    let mut notes: Vec<String> = Vec::new();
    notes.push("Windows gateway adapter currently not enabled (WFP/HNS planned)".to_owned());
    let p = ApplyPlan { steps: Vec::new(), notes };
    assert(p.spec_notes() =~= seq!["Windows gateway adapter currently not enabled (WFP/HNS planned)"@]);
    p
}

/// The Windows policy plan for one device: a note that it needs WFP/HNS rules.
pub fn apply_policy_target(_cfg: &AppConfig, ip: &str, _mac: Option<&str>) -> (p: ApplyPlan)
    ensures
        p.spec_steps().len() == 0,
        p.spec_notes() == seq!["policy-route target "@ + ip@ + " requires WFP/HNS rules on Windows; adapter planned"@],
{
    let mut note = "policy-route target ".to_owned();
    note.append(ip);
    note.append(" requires WFP/HNS rules on Windows; adapter planned");
    let mut notes: Vec<String> = Vec::new();
    notes.push(note);
    let p = ApplyPlan { steps: Vec::new(), notes };
    assert(p.spec_notes() =~= seq!["policy-route target "@ + ip@ + " requires WFP/HNS rules on Windows; adapter planned"@]);
    p
}

} // verus!
