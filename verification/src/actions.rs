//! The action binding registry.
//!
//! Declarative, startup-only records: an action set, the logical actions
//! inside it, and the hardware bindings — `(interaction profile, input
//! path)` pairs — that feed each action.  Several hardware profiles may
//! bind the same logical action.  At runtime the external action runtime
//! refreshes one [`ActionState`] per logical action each frame; resolving
//! a name against those states is a plain first-match lookup.

use vstd::prelude::*;

verus! {

/// The value type a logical action is declared with.
#[derive(Clone, Copy, PartialEq, Eq, Structural, Debug)]
pub enum ActionValueKind {
    Boolean,
    Scalar,
    Vector,
}

/// The resolved value of a logical action for one frame.  Scalar and
/// vector coordinates are fixed-point, scaled by [`crate::math::SCALE`].
#[derive(Clone, Copy, PartialEq, Eq, Structural, Debug)]
pub enum ActionState {
    Bool(bool),
    Float(i64),
    Vector2(i64, i64),
}

/// The declared action set: name, display name and priority.
pub struct ActionSetInfo {
    pub name: String,
    pub localized_name: String,
    pub priority: u32,
}

/// A declared logical action.
pub struct ActionDecl {
    pub name: String,
    pub localized_name: String,
    pub kind: ActionValueKind,
}

/// A declared hardware binding for a logical action.
pub struct BindingDecl {
    pub action_name: String,
    pub profile: String,
    pub path: String,
}

/// How many bindings of `s` target the action called `name`.
pub open spec fn count_bindings_for(s: Seq<BindingDecl>, name: Seq<char>) -> int
    decreases s.len(),
{
    if s.len() == 0 {
        0
    } else {
        count_bindings_for(s.drop_last(), name) + if s.last().action_name@ == name {
            1int
        } else {
            0
        }
    }
}

/// The first state listed for `name`, if any.
pub open spec fn first_state_for(s: Seq<(String, ActionState)>, name: Seq<char>) -> Option<
    ActionState,
>
    decreases s.len(),
{
    if s.len() == 0 {
        None
    } else if s[0].0@ == name {
        Some(s[0].1)
    } else {
        first_state_for(s.drop_first(), name)
    }
}

/// The registry: one action set, its actions (uniquely named) and their
/// bindings.  Built once at startup, immutable afterwards.
pub struct ActionRegistry {
    pub set: ActionSetInfo,
    pub actions: Vec<ActionDecl>,
    pub bindings: Vec<BindingDecl>,
}

impl ActionRegistry {
    /// Action names never repeat, and every binding targets a declared
    /// action.
    pub open spec fn wf(self) -> bool {
        &&& forall|i: int, j: int|
            0 <= i < j < self.actions@.len() ==> self.actions@[i].name@ != self.actions@[j].name@
        &&& forall|k: int|
            0 <= k < self.bindings@.len() ==> self.has_action(#[trigger] self.bindings@[k].action_name@)
    }

    /// Some declared action carries this name.
    pub open spec fn has_action(self, name: Seq<char>) -> bool {
        exists|i: int| 0 <= i < self.actions@.len() && self.actions@[i].name@ == name
    }

    /// Start an empty registry for one action set.
    pub fn new(set: ActionSetInfo) -> (r: ActionRegistry)
        ensures
            r.set == set,
            r.actions@.len() == 0,
            r.bindings@.len() == 0,
            r.wf(),
    {
        ActionRegistry { set, actions: Vec::new(), bindings: Vec::new() }
    }

    /// Declare a logical action.  Rejected — the registry unchanged —
    /// exactly when the name is already taken.
    pub fn register_action(&mut self, name: String, localized_name: String, kind: ActionValueKind)
        -> (ok: bool)
        requires
            old(self).wf(),
        ensures
            final(self).wf(),
            final(self).set == old(self).set,
            final(self).bindings@ == old(self).bindings@,
            ok <==> !old(self).has_action(name@),
            ok ==> final(self).actions@.len() == old(self).actions@.len() + 1 && (forall|i: int|
                0 <= i < old(self).actions@.len() ==> final(self).actions@[i]
                    == old(self).actions@[i]) && final(self).actions@.last().name@ == name@
                && final(self).actions@.last().localized_name@ == localized_name@
                && final(self).actions@.last().kind == kind,
            !ok ==> final(self).actions@ == old(self).actions@,
    {
        if self.contains_action(&name) {
            false
        } else {
            let decl = ActionDecl { name, localized_name, kind };
            self.actions.push(decl);
            proof {
                assert forall|k: int|
                    0 <= k < self.bindings@.len() implies self.has_action(
                    #[trigger] self.bindings@[k].action_name@,
                ) by {
                    let w = choose|i: int|
                        0 <= i < old(self).actions@.len() && old(self).actions@[i].name@
                            == old(self).bindings@[k].action_name@;
                    assert(self.actions@[w].name@ == self.bindings@[k].action_name@);
                }
            }
            true
        }
    }

    /// Whether a declared action carries this name.
    pub fn contains_action(&self, name: &String) -> (r: bool)
        ensures
            r == self.has_action(name@),
    {
        let mut i: usize = 0;
        while i < self.actions.len()
            invariant
                0 <= i <= self.actions@.len(),
                forall|j: int| 0 <= j < i ==> self.actions@[j].name@ != name@,
            decreases self.actions@.len() - i,
        {
            if self.actions[i].name == *name {
                return true;
            }
            i = i + 1;
        }
        false
    }

    /// Look an action up by name.
    pub fn find_action(&self, name: &String) -> (r: Option<&ActionDecl>)
        ensures
            (r is Some) <==> self.has_action(name@),
            r matches Some(a) ==> a.name@ == name@ && exists|i: int|
                0 <= i < self.actions@.len() && self.actions@[i] == *a,
    {
        let mut i: usize = 0;
        while i < self.actions.len()
            invariant
                0 <= i <= self.actions@.len(),
                forall|j: int| 0 <= j < i ==> self.actions@[j].name@ != name@,
            decreases self.actions@.len() - i,
        {
            if self.actions[i].name == *name {
                return Some(&self.actions[i]);
            }
            i = i + 1;
        }
        None
    }

    /// Bind a hardware `(profile, path)` pair to a declared action.
    /// Rejected — the registry unchanged — exactly when no action of that
    /// name exists.
    pub fn register_binding(&mut self, action_name: String, profile: String, path: String) -> (ok:
        bool)
        requires
            old(self).wf(),
        ensures
            final(self).wf(),
            final(self).set == old(self).set,
            final(self).actions@ == old(self).actions@,
            ok <==> old(self).has_action(action_name@),
            ok ==> final(self).bindings@.len() == old(self).bindings@.len() + 1 && (forall|i: int|
                0 <= i < old(self).bindings@.len() ==> final(self).bindings@[i]
                    == old(self).bindings@[i]) && final(self).bindings@.last().action_name@
                == action_name@ && final(self).bindings@.last().profile@ == profile@
                && final(self).bindings@.last().path@ == path@,
            !ok ==> final(self).bindings@ == old(self).bindings@,
    {
        if self.contains_action(&action_name) {
            let decl = BindingDecl { action_name, profile, path };
            self.bindings.push(decl);
            true
        } else {
            false
        }
    }

    /// How many bindings target the action called `name`.
    pub fn binding_count(&self, name: &String) -> (n: usize)
        ensures
            n == count_bindings_for(self.bindings@, name@),
    {
        let mut i: usize = 0;
        let mut n: usize = 0;
        while i < self.bindings.len()
            invariant
                0 <= i <= self.bindings@.len(),
                n <= i,
                n == count_bindings_for(self.bindings@.take(i as int), name@),
            decreases self.bindings@.len() - i,
        {
            proof {
                assert(self.bindings@.take(i + 1).drop_last() =~= self.bindings@.take(i as int));
                assert(self.bindings@.take(i + 1).last() == self.bindings@[i as int]);
            }
            if self.bindings[i].action_name == *name {
                n = n + 1;
            }
            i = i + 1;
        }
        proof {
            assert(self.bindings@.take(self.bindings@.len() as int) =~= self.bindings@);
        }
        n
    }
}

/// Resolve the current state of a logical action from the per-frame
/// state table the external action runtime filled: the first entry
/// carrying the name, if any.
pub fn resolve_action_state(states: &Vec<(String, ActionState)>, name: &String) -> (r: Option<
    ActionState,
>)
    ensures
        r == first_state_for(states@, name@),
{
    let mut i: usize = 0;
    proof {
        assert(states@.skip(0) =~= states@);
    }
    while i < states.len()
        invariant
            0 <= i <= states@.len(),
            first_state_for(states@, name@) == first_state_for(states@.skip(i as int), name@),
        decreases states@.len() - i,
    {
        proof {
            assert(states@.skip(i as int).drop_first() =~= states@.skip(i + 1));
            assert(states@.skip(i as int)[0] == states@[i as int]);
        }
        if states[i].0 == *name {
            return Some(states[i].1);
        }
        i = i + 1;
    }
    None
}

/// The built-in flight declarations: one action set named `flight` at the
/// lowest priority, holding a single vector-valued logical action
/// `flight_input`, bound to the right-hand thumbstick on two controller
/// profiles (so either controller family drives the same action).
pub fn flight_registry() -> (r: ActionRegistry)
    ensures
        r.wf(),
        r.set.name@ == "flight"@,
        r.set.priority == 0,
        r.actions@.len() == 1,
        r.actions@[0].name@ == "flight_input"@,
        r.actions@[0].kind == ActionValueKind::Vector,
        r.bindings@.len() == 2,
        r.bindings@[0].action_name@ == "flight_input"@,
        r.bindings@[0].profile@ == "/interaction_profiles/valve/index_controller"@,
        r.bindings@[0].path@ == "/user/hand/right/input/thumbstick"@,
        r.bindings@[1].action_name@ == "flight_input"@,
        r.bindings@[1].profile@ == "/interaction_profiles/oculus/touch_controller"@,
        r.bindings@[1].path@ == "/user/hand/right/input/thumbstick"@,
{
    let set = ActionSetInfo {
        name: "flight".to_owned(),
        localized_name: "pretty flight set".to_owned(),
        priority: 0,
    };
    let mut reg = ActionRegistry::new(set);
    let ok_action = reg.register_action(
        "flight_input".to_owned(),
        "flight_input_localized".to_owned(),
        ActionValueKind::Vector,
    );
    assert(ok_action);
    proof {
        assert(reg.actions@[0].name@ == "flight_input"@);
    }
    let ok_first = reg.register_binding(
        "flight_input".to_owned(),
        "/interaction_profiles/valve/index_controller".to_owned(),
        "/user/hand/right/input/thumbstick".to_owned(),
    );
    assert(ok_first);
    let ok_second = reg.register_binding(
        "flight_input".to_owned(),
        "/interaction_profiles/oculus/touch_controller".to_owned(),
        "/user/hand/right/input/thumbstick".to_owned(),
    );
    assert(ok_second);
    reg
}

} // verus!
