//! Named input actions configured per project, and the gameplay-facing input
//! queries that accept either a key or an action name.
use vstd::prelude::*;
use crate::input::{
    action_axis, any_in, axis_direction, keys_named, parse_key_list, string_views, InputState,
    KeyCode,
};
use crate::text::chars_of;

verus! {

/// A two-dimensional action driven by four key groups.
#[derive(Debug, Clone, Default)]
pub struct Axis2dAction {
    pub left: Vec<KeyCode>,
    pub right: Vec<KeyCode>,
    pub up: Vec<KeyCode>,
    pub down: Vec<KeyCode>,
}

/// A button action: active when any of its keys is.
#[derive(Debug, Clone, Default)]
pub struct ButtonAction {
    pub keys: Vec<KeyCode>,
}

/// A configured action.
#[derive(Debug, Clone)]
pub enum InputAction {
    Axis2d(Axis2dAction),
    Button(ButtonAction),
}

/// One action of a project's `[input.actions]` table, with key names as written.
#[derive(Debug, Clone)]
pub enum InputActionConfig {
    Axis2d { left: Vec<String>, right: Vec<String>, up: Vec<String>, down: Vec<String> },
    Button { keys: Vec<String> },
}

/// A project's `[input]` table: actions by name. When a name occurs more than
/// once, the later entry is the one that counts.
#[derive(Debug, Clone, Default)]
pub struct InputConfig {
    pub actions: Vec<(String, InputActionConfig)>,
}

/// The names of a configuration's entries, in order.
pub open spec fn config_names(config: InputConfig) -> Seq<Seq<char>> {
    config.actions@.map_values(|e: (String, InputActionConfig)| e.0@)
}

/// The index of the last entry of `names` equal to `name`, or `-1`.
pub open spec fn last_index_named(names: Seq<Seq<char>>, name: Seq<char>) -> int
    decreases names.len(),
{
    if names.len() == 0 {
        -1
    } else if names.last() == name {
        names.len() - 1
    } else {
        last_index_named(names.drop_last(), name)
    }
}

/// The action a configuration entry describes, its key names resolved.
pub open spec fn configured_action(config: InputActionConfig, action: InputAction) -> bool {
    match (config, action) {
        (
            InputActionConfig::Axis2d { left, right, up, down },
            InputAction::Axis2d(a),
        ) => a.left@ == keys_named(string_views(left@)) && a.right@ == keys_named(
            string_views(right@),
        ) && a.up@ == keys_named(string_views(up@)) && a.down@ == keys_named(
            string_views(down@),
        ),
        (InputActionConfig::Button { keys }, InputAction::Button(b)) => b.keys@ == keys_named(
            string_views(keys@),
        ),
        _ => false,
    }
}

proof fn lemma_last_index_bounds(names: Seq<Seq<char>>, name: Seq<char>)
    ensures
        -1 <= last_index_named(names, name) < names.len(),
        last_index_named(names, name) >= 0 ==> names[last_index_named(names, name)] == name,
    decreases names.len(),
{
    if names.len() > 0 {
        lemma_last_index_bounds(names.drop_last(), name);
    }
}

/// The named actions of a project.
#[derive(Debug, Clone, Default)]
pub struct InputActions {
    actions: Vec<(String, InputAction)>,
}

impl InputActions {
    /// The action names, in configuration order.
    pub closed spec fn names(&self) -> Seq<Seq<char>> {
        self.actions@.map_values(|e: (String, InputAction)| e.0@)
    }

    /// The action bound to `name`: the last one configured under it.
    pub closed spec fn action_named(&self, name: Seq<char>) -> Option<InputAction> {
        let i = last_index_named(self.names(), name);
        if i >= 0 {
            Some(self.actions@[i].1)
        } else {
            None
        }
    }

    /// The keys of the button bound to `name`; `None` when no action or a
    /// non-button action is bound to it.
    pub open spec fn button_keys(&self, name: Seq<char>) -> Option<Seq<KeyCode>> {
        match self.action_named(name) {
            Some(InputAction::Button(b)) => Some(b.keys@),
            _ => None,
        }
    }

    /// Whether the action bound to `name` is the one described by the last
    /// entry of `config` named `name`, and none when there is no such entry.
    pub open spec fn describes(&self, config: InputConfig, name: Seq<char>) -> bool {
        let i = last_index_named(config_names(config), name);
        if i >= 0 {
            self.action_named(name) matches Some(a) && configured_action(config.actions@[i].1, a)
        } else {
            self.action_named(name) is None
        }
    }

    /// No actions.
    pub fn new() -> (actions: Self)
        ensures
            forall|name: Seq<char>| #[trigger] actions.action_named(name) is None,
    {
        let actions = InputActions { actions: Vec::new() };
        assert forall|name: Seq<char>| #[trigger] actions.action_named(name) is None by {
            lemma_last_index_bounds(actions.names(), name);
        }
        actions
    }

    /// Resolves the key names of every configured action. For each name, the
    /// action bound to it is the one its last configuration entry describes.
    pub fn from_config(config: InputConfig) -> (actions: Self)
        ensures
            forall|name: Seq<char>| #[trigger] actions.describes(config, name),
    {
        let ghost config_names = config.actions@.map_values(|e: (String, InputActionConfig)| e.0@);
        let ghost config_entries = config.actions@;
        let mut out: Vec<(String, InputAction)> = Vec::new();
        let mut entries = config.actions;
        let mut remaining: Vec<(String, InputActionConfig)> = Vec::new();
        // Reverse into `remaining` so that popping yields configuration order.
        while entries.len() > 0
            invariant
                entries@ + remaining@.reverse() == config_entries,
            decreases entries.len(),
        {
            let ghost before_e = entries@;
            let ghost before_r = remaining@;
            let e = entries.pop().unwrap();
            remaining.push(e);
            assert(remaining@.reverse() =~= seq![e] + before_r.reverse());
            assert(before_e =~= entries@.push(e));
        }
        assert(remaining@.reverse() =~= config_entries);
        while remaining.len() > 0
            invariant
                out@.len() + remaining@.len() == config_entries.len(),
                remaining@.reverse() == config_entries.subrange(
                    out@.len() as int,
                    config_entries.len() as int,
                ),
                forall|j: int|
                    0 <= j < out@.len() ==> #[trigger] out@[j].0@ == config_names[j]
                        && configured_action(config_entries[j].1, out@[j].1),
                config_names == config_entries.map_values(|e: (String, InputActionConfig)| e.0@),
            decreases remaining.len(),
        {
            let ghost k = out@.len() as int;
            let ghost before_r = remaining@;
            let (name, entry) = remaining.pop().unwrap();
            proof {
                assert(before_r.reverse()[0] == before_r.last());
                assert(remaining@.reverse() =~= before_r.reverse().drop_first());
                assert(config_entries.subrange(k, config_entries.len() as int)[0] == config_entries[k]);
            }
            let action = match entry {
                InputActionConfig::Axis2d { left, right, up, down } => InputAction::Axis2d(
                    Axis2dAction {
                        left: parse_key_list(left),
                        right: parse_key_list(right),
                        up: parse_key_list(up),
                        down: parse_key_list(down),
                    },
                ),
                InputActionConfig::Button { keys } => InputAction::Button(
                    ButtonAction { keys: parse_key_list(keys) },
                ),
            };
            out.push((name, action));
            proof {
                assert(config_entries.subrange(k + 1, config_entries.len() as int) =~= config_entries.subrange(
                    k,
                    config_entries.len() as int,
                ).drop_first());
            }
        }
        let actions = InputActions { actions: out };
        proof {
            assert(actions.names() =~= config_names);
            assert forall|name: Seq<char>| #[trigger] actions.describes(config, name) by {
                lemma_last_index_bounds(config_names, name);
                let i = last_index_named(config_names, name);
                if i >= 0 {
                    assert(out@[i].0@ == config_names[i]);
                }
            }
        }
        actions
    }

    fn find(&self, name: &str) -> (r: Option<usize>)
        ensures
            match r {
                Some(i) => i as int == last_index_named(self.names(), name@) && i < self.actions@.len(),
                None => last_index_named(self.names(), name@) == -1,
            },
    {
        let target = chars_of(name);
        let mut i: usize = self.actions.len();
        assert(self.names().take(i as int) =~= self.names());
        while i > 0
            invariant
                i <= self.actions@.len(),
                target@ == name@,
                last_index_named(self.names(), name@) == last_index_named(
                    self.names().take(i as int),
                    name@,
                ),
            decreases i,
        {
            let candidate = chars_of(self.actions[i - 1].0.as_str());
            proof {
                assert(self.names().take(i as int).drop_last() =~= self.names().take(i - 1));
                assert(self.names().take(i as int).last() == self.actions@[i - 1].0@);
            }
            if crate::text::chars_eq(&candidate, &target) {
                return Some(i - 1);
            }
            i = i - 1;
        }
        None
    }

    /// The button bound to `name`, if the action bound to it is a button.
    pub fn button(&self, name: &str) -> (r: Option<&ButtonAction>)
        ensures
            match (r, self.button_keys(name@)) {
                (Some(b), Some(keys)) => b.keys@ == keys,
                (None, None) => true,
                _ => false,
            },
    {
        match self.find(name) {
            Some(i) => match &self.actions[i].1 {
                InputAction::Button(b) => Some(b),
                InputAction::Axis2d(_) => None,
            },
            None => None,
        }
    }

    /// Whether any key of the button bound to `name` is held.
    pub fn button_pressed(&self, input: &InputState, name: &str) -> (r: bool)
        ensures
            r == match self.button_keys(name@) {
                Some(keys) => any_in(keys, input.pressed_set()),
                None => false,
            },
    {
        match self.button(name) {
            Some(action) => input.any_pressed(&action.keys),
            None => false,
        }
    }

    /// Whether any key of the button bound to `name` was pressed this frame.
    pub fn button_just_pressed(&self, input: &InputState, name: &str) -> (r: bool)
        ensures
            r == match self.button_keys(name@) {
                Some(keys) => any_in(keys, input.just_pressed_set()),
                None => false,
            },
    {
        match self.button(name) {
            Some(action) => input.any_just_pressed(&action.keys),
            None => false,
        }
    }

    /// Whether any key of the button bound to `name` was released this frame.
    pub fn button_just_released(&self, input: &InputState, name: &str) -> (r: bool)
        ensures
            r == match self.button_keys(name@) {
                Some(keys) => any_in(keys, input.just_released_set()),
                None => false,
            },
    {
        match self.button(name) {
            Some(action) => input.any_just_released(&action.keys),
            None => false,
        }
    }

    /// The directions of the axis action bound to `name`: horizontal (left
    /// negative, right positive) and vertical (up negative, down positive);
    /// `(0, 0)` when no axis action is bound to it.
    pub fn axis2d(&self, input: &InputState, name: &str) -> (r: (i8, i8))
        ensures
            r == match self.action_named(name@) {
                Some(InputAction::Axis2d(a)) => (
                    axis_direction(
                        any_in(a.left@, input.pressed_set()),
                        any_in(a.right@, input.pressed_set()),
                    ),
                    axis_direction(
                        any_in(a.up@, input.pressed_set()),
                        any_in(a.down@, input.pressed_set()),
                    ),
                ),
                _ => (0i8, 0i8),
            },
    {
        match self.find(name) {
            Some(i) => match &self.actions[i].1 {
                InputAction::Axis2d(a) => (
                    action_axis(input, &a.left, &a.right),
                    action_axis(input, &a.up, &a.down),
                ),
                InputAction::Button(_) => (0, 0),
            },
            None => (0, 0),
        }
    }
}

/// Something gameplay code can ask the input about: a key, or an action name.
pub trait InputQuery: Sized {
    /// Whether the query is active in `state` under `actions`.
    spec fn held_in(&self, state: InputState, actions: InputActions) -> bool;

    /// Whether the query became active this frame.
    spec fn began_in(&self, state: InputState, actions: InputActions) -> bool;

    /// Whether the query stopped being active this frame.
    spec fn ended_in(&self, state: InputState, actions: InputActions) -> bool;

    fn pressed(self, state: &InputState, actions: &InputActions) -> (r: bool)
        ensures
            r == self.held_in(*state, *actions),
    ;

    fn just_pressed(self, state: &InputState, actions: &InputActions) -> (r: bool)
        ensures
            r == self.began_in(*state, *actions),
    ;

    fn just_released(self, state: &InputState, actions: &InputActions) -> (r: bool)
        ensures
            r == self.ended_in(*state, *actions),
    ;
}

impl InputQuery for KeyCode {
    open spec fn held_in(&self, state: InputState, actions: InputActions) -> bool {
        state.pressed_set().contains(*self)
    }

    open spec fn began_in(&self, state: InputState, actions: InputActions) -> bool {
        state.just_pressed_set().contains(*self)
    }

    open spec fn ended_in(&self, state: InputState, actions: InputActions) -> bool {
        state.just_released_set().contains(*self)
    }

    fn pressed(self, state: &InputState, actions: &InputActions) -> (r: bool) {
        state.pressed(self)
    }

    fn just_pressed(self, state: &InputState, actions: &InputActions) -> (r: bool) {
        state.just_pressed(self)
    }

    fn just_released(self, state: &InputState, actions: &InputActions) -> (r: bool) {
        state.just_released(self)
    }
}

impl<'q> InputQuery for &'q str {
    open spec fn held_in(&self, state: InputState, actions: InputActions) -> bool {
        match actions.button_keys(self@) {
            Some(keys) => any_in(keys, state.pressed_set()),
            None => false,
        }
    }

    open spec fn began_in(&self, state: InputState, actions: InputActions) -> bool {
        match actions.button_keys(self@) {
            Some(keys) => any_in(keys, state.just_pressed_set()),
            None => false,
        }
    }

    open spec fn ended_in(&self, state: InputState, actions: InputActions) -> bool {
        match actions.button_keys(self@) {
            Some(keys) => any_in(keys, state.just_released_set()),
            None => false,
        }
    }

    fn pressed(self, state: &InputState, actions: &InputActions) -> (r: bool) {
        actions.button_pressed(state, self)
    }

    fn just_pressed(self, state: &InputState, actions: &InputActions) -> (r: bool) {
        actions.button_just_pressed(state, self)
    }

    fn just_released(self, state: &InputState, actions: &InputActions) -> (r: bool) {
        actions.button_just_released(state, self)
    }
}

/// The input a frame's gameplay code sees.
#[derive(Debug, Clone, Copy)]
pub struct GameplayInput<'a> {
    pub state: &'a InputState,
    pub actions: &'a InputActions,
}

impl<'a> GameplayInput<'a> {
    pub fn new(state: &'a InputState, actions: &'a InputActions) -> (g: Self)
        ensures
            *g.state == *state,
            *g.actions == *actions,
    {
        GameplayInput { state, actions }
    }

    pub fn pressed<Q: InputQuery>(&self, query: Q) -> (r: bool)
        ensures
            r == query.held_in(*self.state, *self.actions),
    {
        query.pressed(self.state, self.actions)
    }

    pub fn just_pressed<Q: InputQuery>(&self, query: Q) -> (r: bool)
        ensures
            r == query.began_in(*self.state, *self.actions),
    {
        query.just_pressed(self.state, self.actions)
    }

    pub fn just_released<Q: InputQuery>(&self, query: Q) -> (r: bool)
        ensures
            r == query.ended_in(*self.state, *self.actions),
    {
        query.just_released(self.state, self.actions)
    }

    /// The directions of the axis action `name` (see `InputActions::axis2d`).
    pub fn axis2d(&self, name: &str) -> (r: (i8, i8))
        ensures
            r == match self.actions.action_named(name@) {
                Some(InputAction::Axis2d(a)) => (
                    axis_direction(
                        any_in(a.left@, self.state.pressed_set()),
                        any_in(a.right@, self.state.pressed_set()),
                    ),
                    axis_direction(
                        any_in(a.up@, self.state.pressed_set()),
                        any_in(a.down@, self.state.pressed_set()),
                    ),
                ),
                _ => (0i8, 0i8),
            },
    {
        self.actions.axis2d(self.state, name)
    }
}

} // verus!
