use vstd::prelude::*;

use crate::config::ConfigData;
use crate::shaders::shader::{RenderError, Shader};
use crate::shaders::vibrance::VibranceShader;
use crate::utils::{Time, TimeOfDay};

verus! {

/// Which rule of a snapshot was chosen.
#[derive(Clone, Copy, Debug, PartialEq, Eq, Structural)]
pub enum Choice {
    NightLight,
    /// The vibrance rule at this position.
    Vibrance(usize),
}

/// What the compositor's shader setting needs after a focus change.
#[derive(Clone, Copy, Debug, PartialEq, Eq, Structural)]
pub enum Action {
    /// Nothing to write.
    Keep,
    /// Clear the active shader.
    Remove,
    /// Clear the active shader, if any, and apply the chosen one.
    Apply(Choice),
}

/// Rule `i` is the first vibrance rule that matches the window.
pub open spec fn is_first_match(
    rules: Seq<VibranceShader>,
    class: Seq<char>,
    title: Seq<char>,
    i: int,
) -> bool {
    &&& 0 <= i < rules.len()
    &&& rules[i].matches_spec(class, title)
    &&& forall|j: int| 0 <= j < i ==> !#[trigger] rules[j].matches_spec(class, title)
}

/// The first vibrance rule that matches, if any does.
pub open spec fn first_match(rules: Seq<VibranceShader>, class: Seq<char>, title: Seq<char>) -> Option<
    int,
> {
    if exists|i: int| is_first_match(rules, class, title, i) {
        Some(choose|i: int| is_first_match(rules, class, title, i))
    } else {
        None
    }
}

/// The candidate rule: the night light when it applies, else the first
/// vibrance rule that matches.
pub open spec fn selection(d: &ConfigData, class: Seq<char>, title: Seq<char>, now: TimeOfDay) -> Option<
    Choice,
> {
    if d.night_light_shader matches Some(n) && n.applies_at(now) {
        Some(Choice::NightLight)
    } else {
        match first_match(d.vibrance_shaders@, class, title) {
            Some(i) => Some(Choice::Vibrance(i as usize)),
            None => None,
        }
    }
}

/// The choice names a rule that the snapshot holds.
pub open spec fn choice_in(d: &ConfigData, c: Choice) -> bool {
    match c {
        Choice::NightLight => d.night_light_shader is Some,
        Choice::Vibrance(i) => i < d.vibrance_shaders@.len(),
    }
}

/// The identity of the chosen rule.
pub open spec fn choice_identity(d: &ConfigData, c: Choice) -> Seq<char> {
    match c {
        Choice::NightLight => match d.night_light_shader {
            Some(n) => n.identity(),
            None => Seq::empty(),
        },
        Choice::Vibrance(i) => d.vibrance_shaders@[i as int].identity(),
    }
}

/// The program text of the chosen rule.
pub open spec fn choice_program(d: &ConfigData, c: Choice) -> Option<Seq<char>> {
    match c {
        Choice::NightLight => match d.night_light_shader {
            Some(n) => n.program(),
            None => None,
        },
        Choice::Vibrance(i) => d.vibrance_shaders@[i as int].program(),
    }
}

/// The action owed for a focus change, given the active identity.
pub open spec fn decision(
    d: &ConfigData,
    class: Seq<char>,
    title: Seq<char>,
    now: TimeOfDay,
    active: Option<Seq<char>>,
) -> Action {
    match selection(d, class, title, now) {
        None => if active is Some {
            Action::Remove
        } else {
            Action::Keep
        },
        Some(c) => if active == Some(choice_identity(d, c)) {
            Action::Keep
        } else {
            Action::Apply(c)
        },
    }
}

/// The active identity once an action has been carried out.
pub open spec fn after(d: &ConfigData, a: Action, active: Option<Seq<char>>) -> Option<Seq<char>> {
    match a {
        Action::Keep => active,
        Action::Remove => None,
        Action::Apply(c) => Some(choice_identity(d, c)),
    }
}

/// Finds the first vibrance rule that matches the window.
pub fn first_matching_rule(rules: &Vec<VibranceShader>, class: &String, title: &String) -> (r:
    Option<usize>)
    ensures
        r matches Some(i) ==> is_first_match(rules@, class@, title@, i as int),
        r is None ==> forall|j: int|
            0 <= j < rules@.len() ==> !#[trigger] rules@[j].matches_spec(class@, title@),
        first_match(rules@, class@, title@) == match r {
            Some(i) => Some(i as int),
            None => None::<int>,
        },
{
    let mut i: usize = 0;
    while i < rules.len()
        invariant
            i <= rules@.len(),
            forall|j: int| 0 <= j < i ==> !#[trigger] rules@[j].matches_spec(class@, title@),
        decreases rules@.len() - i,
    {
        let hit = rules[i].should_apply(Some(class.clone()), Some(title.clone()));
        if hit {
            proof {
                assert(is_first_match(rules@, class@, title@, i as int));
                let k = choose|k: int| is_first_match(rules@, class@, title@, k);
                if k < i {
                    assert(!rules@[k].matches_spec(class@, title@));
                } else if k > i {
                    assert(!rules@[i as int].matches_spec(class@, title@));
                }
            }
            return Some(i);
        }
        i = i + 1;
    }
    None
}

/// The rule that applies to the window at `now`, night light first.
pub fn select_shader(d: &ConfigData, class: &String, title: &String, now: TimeOfDay) -> (r: Option<
    Choice,
>)
    ensures
        r == selection(d, class@, title@, now),
        r matches Some(c) ==> choice_in(d, c),
{
    match &d.night_light_shader {
        Some(n) => {
            if n.should_apply_at(now) {
                return Some(Choice::NightLight);
            }
        },
        None => {},
    }
    match first_matching_rule(&d.vibrance_shaders, class, title) {
        Some(i) => Some(Choice::Vibrance(i)),
        None => None,
    }
}

/// The identity string of the chosen rule.
pub fn choice_hash(d: &ConfigData, c: Choice) -> (r: String)
    requires
        choice_in(d, c),
    ensures
        r@ == choice_identity(d, c),
{
    match c {
        Choice::NightLight => match &d.night_light_shader {
            Some(n) => n.hash(),
            None => String::new(),
        },
        Choice::Vibrance(i) => d.vibrance_shaders[i].hash(),
    }
}

/// The program text of the chosen rule.
pub fn choice_render(d: &ConfigData, c: Choice) -> (r: Result<String, RenderError>)
    requires
        choice_in(d, c),
        d.wf(),
    ensures
        r is Ok <==> choice_program(d, c) is Some,
        r matches Ok(s) ==> choice_program(d, c) == Some(s@),
{
    match c {
        Choice::NightLight => match &d.night_light_shader {
            Some(n) => n.get(),
            None => Err(RenderError::Template),
        },
        Choice::Vibrance(i) => d.vibrance_shaders[i].get(),
    }
}

/// The time of day that the snapshot's night-light rule consults; the
/// local clock where it has none.
pub fn snapshot_time(d: &ConfigData) -> (r: TimeOfDay)
    ensures
        d.night_light_shader matches Some(n) ==> (n.time_impl.mock_time matches Some(p) ==> r
            == p),
        d.night_light_shader matches Some(n) ==> (n.time_impl.mock_time is None ==> r.wf()),
        d.night_light_shader is None ==> r.wf(),
{
    match &d.night_light_shader {
        Some(n) => n.current_time(),
        None => Time::new(None).now(),
    }
}

/// Handling the same focus change twice in a row writes at most once: the
/// second decision is to keep what the first one left.
pub proof fn lemma_repeat_event_is_noop(
    d: &ConfigData,
    class: Seq<char>,
    title: Seq<char>,
    now: TimeOfDay,
    active: Option<Seq<char>>,
)
    ensures
        decision(d, class, title, now, after(d, decision(d, class, title, now, active), active))
            == Action::Keep,
{
}

/// Tracks the identity of the shader that the compositor shows.
#[derive(Clone, Debug)]
pub struct ActivationController {
    pub active: Option<String>,
}

/// The identity that an optional string names.
pub open spec fn identity_view(a: Option<String>) -> Option<Seq<char>> {
    match a {
        Some(s) => Some(s@),
        None => None,
    }
}

impl ActivationController {
    /// A controller that starts from the identity read back from the
    /// compositor, or from none.
    pub fn new(active: Option<String>) -> (r: ActivationController)
        ensures
            r.active == active,
    {
        ActivationController { active }
    }

    pub open spec fn active_view(&self) -> Option<Seq<char>> {
        identity_view(self.active)
    }

    /// The action owed for a focus change to the window `class`, `title`.
    pub fn decide(&self, d: &ConfigData, class: &String, title: &String, now: TimeOfDay) -> (r:
        Action)
        ensures
            r == decision(d, class@, title@, now, self.active_view()),
            r matches Action::Apply(c) ==> choice_in(d, c),
    {
        match select_shader(d, class, title, now) {
            None => {
                if self.active.is_some() {
                    Action::Remove
                } else {
                    Action::Keep
                }
            },
            Some(c) => {
                let id = choice_hash(d, c);
                let same = match &self.active {
                    Some(a) => *a == id,
                    None => false,
                };
                if same {
                    Action::Keep
                } else {
                    Action::Apply(c)
                }
            },
        }
    }

    /// Records that `a` was carried out; a failed action is not recorded.
    pub fn record_success(&mut self, d: &ConfigData, a: Action)
        requires
            a matches Action::Apply(c) ==> choice_in(d, c),
        ensures
            final(self).active_view() == after(d, a, old(self).active_view()),
    {
        match a {
            Action::Keep => {},
            Action::Remove => {
                self.active = None;
            },
            Action::Apply(c) => {
                self.active = Some(choice_hash(d, c));
            },
        }
    }
}

} // verus!
