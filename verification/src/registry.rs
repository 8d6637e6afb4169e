//! The global-hotkey registry: owns the currently-active binding and plans
//! atomic rebinds (unregister the old binding, register the new one).
//!
//! The operating-system calls themselves are performed by the caller, which
//! drives the protocol: ask for a plan with `begin_rebind`, perform the
//! plan's unregister (best-effort) and register, then report the register's
//! outcome with `commit_rebind`. The effect of a plan on the set of
//! registrations the operating system holds is modeled by `apply_plan`.
use vstd::prelude::*;
use crate::shortcut::{Binding, ParseError, parse_shortcut, spec_parse};

verus! {

/// The two operating-system calls a rebind performs, in order: first
/// unregister `unregister` (when present, best-effort), then register
/// `register`.
#[derive(Clone, Copy, PartialEq, Eq, Structural, Debug)]
pub struct RebindPlan {
    pub unregister: Option<Binding>,
    pub register: Binding,
}

/// What a validation probe decides.
#[derive(Clone, Copy, PartialEq, Eq, Structural, Debug)]
pub enum ValidationOutcome {
    /// The specification names the binding that is already active: valid,
    /// and the operating system is not touched.
    AlreadyActive,
    /// The binding must be probed with a register/unregister round-trip.
    Probe(Binding),
}

/// Owns the currently-active binding; at most one is active at a time.
pub struct HotkeyRegistry {
    pub current: Option<Binding>,
}

/// The plan a rebind issues from a given active binding to a new one.
pub open spec fn plan_for(current: Option<Binding>, new: Binding) -> RebindPlan {
    RebindPlan { unregister: current, register: new }
}

/// The binding that is active after a plan is committed: the new one on a
/// successful register, none at all on a failed one.
pub open spec fn committed_current(plan: RebindPlan, registered: bool) -> Option<Binding> {
    if registered {
        Some(plan.register)
    } else {
        None
    }
}

/// The registrations the operating system holds after a plan runs:
/// the unregister removes its binding when the system honors it
/// (best-effort), and a successful register adds the new binding.
pub open spec fn apply_plan(
    os: Set<Binding>,
    plan: RebindPlan,
    unregistered: bool,
    registered: bool,
) -> Set<Binding> {
    let after_unregister = match plan.unregister {
        Some(b) => if unregistered {
            os.remove(b)
        } else {
            os
        },
        None => os,
    };
    if registered {
        after_unregister.insert(plan.register)
    } else {
        after_unregister
    }
}

/// The registry is consistent with the operating system when the
/// registrations are exactly the active binding, or none.
pub open spec fn consistent_with_os(reg: HotkeyRegistry, os: Set<Binding>) -> bool {
    match reg.current {
        Some(b) => os =~= Set::empty().insert(b),
        None => os =~= Set::<Binding>::empty(),
    }
}

impl HotkeyRegistry {
    /// A registry with no binding active.
    pub fn new() -> (r: HotkeyRegistry)
        ensures
            r.current is None,
    {
        HotkeyRegistry { current: None }
    }

    /// Parses the specification and plans the rebind: unregister whatever
    /// is active, then register the parsed binding. A parse failure is
    /// surfaced and nothing is planned.
    pub fn begin_rebind(&self, text: &str) -> (r: Result<RebindPlan, ParseError>)
        ensures
            spec_parse(text@) matches Ok(b) ==> r == Ok::<RebindPlan, ParseError>(
                plan_for(self.current, b),
            ),
            spec_parse(text@) matches Err(e) ==> r == Err::<RebindPlan, ParseError>(e),
    {
        match parse_shortcut(text) {
            Ok(b) => Ok(RebindPlan { unregister: self.current, register: b }),
            Err(e) => Err(e),
        }
    }

    /// Records the outcome of a performed plan: on a successful register
    /// the new binding is active; on a failure no binding is left active.
    /// A failed unregister does not abort a rebind and is not reported.
    pub fn commit_rebind(&mut self, plan: RebindPlan, registered: bool)
        ensures
            final (self).current == committed_current(plan, registered),
    {
        if registered {
            self.current = Some(plan.register);
        } else {
            self.current = None;
        }
    }

    /// Decides how to validate a specification: a parse failure is
    /// surfaced; the currently-active binding is valid without touching the
    /// operating system; any other binding must be probed.
    pub fn validate_plan(&self, text: &str) -> (r: Result<ValidationOutcome, ParseError>)
        ensures
            spec_parse(text@) matches Err(e) ==> r == Err::<ValidationOutcome, ParseError>(e),
            spec_parse(text@) matches Ok(b) ==> (if self.current == Some(b) {
                r == Ok::<ValidationOutcome, ParseError>(ValidationOutcome::AlreadyActive)
            } else {
                r == Ok::<ValidationOutcome, ParseError>(ValidationOutcome::Probe(b))
            }),
    {
        match parse_shortcut(text) {
            Err(e) => Err(e),
            Ok(b) => {
                let same = match self.current {
                    Some(c) => c == b,
                    None => false,
                };
                if same {
                    Ok(ValidationOutcome::AlreadyActive)
                } else {
                    Ok(ValidationOutcome::Probe(b))
                }
            },
        }
    }
}

/// Law: rebinding twice to the same specification, with both registers
/// succeeding, succeeds both times and leaves exactly that one binding
/// registered and active - no duplicate and no leaked registration -
/// whether or not the second unregister was honored.
pub proof fn lemma_rebind_idempotent(
    text: Seq<char>,
    b: Binding,
    reg0: HotkeyRegistry,
    os0: Set<Binding>,
    unregistered2: bool,
)
    requires
        spec_parse(text) == Ok::<Binding, ParseError>(b),
        consistent_with_os(reg0, os0),
    ensures
        ({
            let plan1 = plan_for(reg0.current, b);
            let os1 = apply_plan(os0, plan1, true, true);
            let current1 = committed_current(plan1, true);
            let plan2 = plan_for(current1, b);
            let os2 = apply_plan(os1, plan2, unregistered2, true);
            let current2 = committed_current(plan2, true);
            &&& current1 == Some(b)
            &&& current2 == Some(b)
            &&& os2 =~= Set::empty().insert(b)
            &&& consistent_with_os(HotkeyRegistry { current: current2 }, os2)
        }),
{
    let plan1 = plan_for(reg0.current, b);
    let os1 = apply_plan(os0, plan1, true, true);
    match reg0.current {
        Some(c) => {
            assert(os1 =~= Set::empty().insert(b));
        },
        None => {
            assert(os1 =~= Set::empty().insert(b));
        },
    }
    let plan2 = plan_for(Some(b), b);
    let os2 = apply_plan(os1, plan2, unregistered2, true);
    assert(os2 =~= Set::empty().insert(b));
}

} // verus!
