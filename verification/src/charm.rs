//! The dispatcher's decision: from a classified event to the handler that
//! should fire, if any.  Selecting never fails; an event without a handler is
//! a no-op.  Performing the handler's side effect is the caller's business.

use crate::jujuenv::{HookContext, HookContextView};
use vstd::prelude::*;

verus! {

/// The handlers a charm defines.
#[derive(Debug, Clone, Copy, PartialEq, Eq)]
pub enum Handler {
    OnInstall,
    OnReplicaCreated,
}

/// Which handler an event selects: the install handler on an install event,
/// the replica handler on a relation-created event for the `relicas`
/// relation, and none otherwise.
pub open spec fn dispatch_spec(c: HookContextView) -> Option<Handler> {
    match c {
        HookContextView::Install(_) => Some(Handler::OnInstall),
        HookContextView::RelationCreated(v, _) => if v.relation_name == "relicas"@ {
            Some(Handler::OnReplicaCreated)
        } else {
            None
        },
        _ => None,
    }
}

/// Selects the handler the event calls for.  The decision is a function of
/// the event value alone: no state is read or written, so dispatching the
/// same event again selects the same handler.
pub fn dispatch_decision(ctx: &HookContext) -> (r: Option<Handler>)
    ensures
        r == dispatch_spec(ctx@),
{
    match ctx {
        HookContext::Install(_, _) => Some(Handler::OnInstall),
        HookContext::RelationCreated(c, _) => {
            let expected = String::from_str("relicas");
            if c.relation_name == expected {
                Some(Handler::OnReplicaCreated)
            } else {
                None
            }
        },
        _ => None,
    }
}

/// Dispatch is idempotent and side-effect-free: two dispatch decisions over
/// the same event value always agree, with no state carried between them.
pub proof fn lemma_dispatch_deterministic(a: HookContext, b: HookContext)
    requires
        a@ == b@,
    ensures
        dispatch_spec(a@) == dispatch_spec(b@),
{
}

} // verus!
