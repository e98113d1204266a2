//! Normalised keyboard input: held keys and per-frame press/release
//! transitions, the desktop frame bridge, and named input actions.
use vstd::prelude::*;
use crate::text::str_eq;

verus! {

/// The engine's key codes.
#[derive(Debug, Clone, Copy, PartialEq, Eq, Hash, Structural)]
pub enum KeyCode {
    ArrowUp,
    ArrowDown,
    ArrowLeft,
    ArrowRight,
    KeyW,
    KeyA,
    KeyS,
    KeyD,
    Space,
    Enter,
    Escape,
}

/// The number of key codes.
pub const KEY_COUNT: usize = 11;

/// The slot of a key in the per-key tables.
pub open spec fn key_slot(key: KeyCode) -> int {
    match key {
        KeyCode::ArrowUp => 0,
        KeyCode::ArrowDown => 1,
        KeyCode::ArrowLeft => 2,
        KeyCode::ArrowRight => 3,
        KeyCode::KeyW => 4,
        KeyCode::KeyA => 5,
        KeyCode::KeyS => 6,
        KeyCode::KeyD => 7,
        KeyCode::Space => 8,
        KeyCode::Enter => 9,
        KeyCode::Escape => 10,
    }
}

impl KeyCode {
    fn slot(self) -> (i: usize)
        ensures
            i == key_slot(self),
            i < KEY_COUNT,
    {
        match self {
            KeyCode::ArrowUp => 0,
            KeyCode::ArrowDown => 1,
            KeyCode::ArrowLeft => 2,
            KeyCode::ArrowRight => 3,
            KeyCode::KeyW => 4,
            KeyCode::KeyA => 5,
            KeyCode::KeyS => 6,
            KeyCode::KeyD => 7,
            KeyCode::Space => 8,
            KeyCode::Enter => 9,
            KeyCode::Escape => 10,
        }
    }
}

/// Keyboard state for one frame: the keys held, and those pressed or
/// released since the previous frame ended.
#[derive(Debug, Clone, Copy)]
pub struct InputState {
    pressed_keys: [bool; 11],
    just_pressed_keys: [bool; 11],
    just_released_keys: [bool; 11],
}

impl InputState {
    /// The keys held down.
    pub closed spec fn pressed_set(&self) -> Set<KeyCode> {
        Set::new(|k: KeyCode| self.pressed_keys@[key_slot(k)])
    }

    /// The keys pressed during the current frame.
    pub closed spec fn just_pressed_set(&self) -> Set<KeyCode> {
        Set::new(|k: KeyCode| self.just_pressed_keys@[key_slot(k)])
    }

    /// The keys released during the current frame.
    pub closed spec fn just_released_set(&self) -> Set<KeyCode> {
        Set::new(|k: KeyCode| self.just_released_keys@[key_slot(k)])
    }

    /// A key pressed this frame is held, and a key released this frame is not.
    pub open spec fn consistent(&self) -> bool {
        &&& self.just_pressed_set().subset_of(self.pressed_set())
        &&& self.just_released_set().disjoint(self.pressed_set())
    }

    /// No key held and no transitions.
    pub fn new() -> (s: Self)
        ensures
            s.pressed_set() == Set::<KeyCode>::empty(),
            s.just_pressed_set() == Set::<KeyCode>::empty(),
            s.just_released_set() == Set::<KeyCode>::empty(),
            s.consistent(),
    {
        let s = InputState {
            pressed_keys: [false; 11],
            just_pressed_keys: [false; 11],
            just_released_keys: [false; 11],
        };
        assert(s.pressed_set() =~= Set::<KeyCode>::empty());
        assert(s.just_pressed_set() =~= Set::<KeyCode>::empty());
        assert(s.just_released_set() =~= Set::<KeyCode>::empty());
        s
    }

    /// Presses `key`: a key that was not held becomes held and just pressed
    /// (and no longer just released); pressing a held key changes nothing.
    /// Other keys are untouched.
    pub fn press(&mut self, key: KeyCode)
        ensures
            !old(self).pressed_set().contains(key) ==> {
                &&& final(self).pressed_set() == old(self).pressed_set().insert(key)
                &&& final(self).just_pressed_set() == old(self).just_pressed_set().insert(key)
                &&& final(self).just_released_set() == old(self).just_released_set().remove(key)
            },
            old(self).pressed_set().contains(key) ==> *final(self) == *old(self),
            old(self).consistent() ==> final(self).consistent(),
    {
        let i = key.slot();
        if !self.pressed_keys[i] {
            let ghost before = *self;
            self.pressed_keys[i] = true;
            self.just_pressed_keys[i] = true;
            self.just_released_keys[i] = false;
            assert(self.pressed_set() =~= before.pressed_set().insert(key));
            assert(self.just_pressed_set() =~= before.just_pressed_set().insert(key));
            assert(self.just_released_set() =~= before.just_released_set().remove(key));
        } else {
            assert(old(self).pressed_set().contains(key));
        }
    }

    /// Releases `key`: a held key stops being held and becomes just released
    /// (and no longer just pressed); releasing a key that is not held changes
    /// nothing. Other keys are untouched.
    pub fn release(&mut self, key: KeyCode)
        ensures
            old(self).pressed_set().contains(key) ==> {
                &&& final(self).pressed_set() == old(self).pressed_set().remove(key)
                &&& final(self).just_released_set() == old(self).just_released_set().insert(key)
                &&& final(self).just_pressed_set() == old(self).just_pressed_set().remove(key)
            },
            !old(self).pressed_set().contains(key) ==> *final(self) == *old(self),
            old(self).consistent() ==> final(self).consistent(),
    {
        let i = key.slot();
        if self.pressed_keys[i] {
            let ghost before = *self;
            self.pressed_keys[i] = false;
            self.just_released_keys[i] = true;
            self.just_pressed_keys[i] = false;
            assert(before.pressed_set().contains(key));
            assert(self.pressed_set() =~= before.pressed_set().remove(key));
            assert(self.just_released_set() =~= before.just_released_set().insert(key));
            assert(self.just_pressed_set() =~= before.just_pressed_set().remove(key));
        } else {
            assert(!old(self).pressed_set().contains(key));
        }
    }

    pub fn pressed(&self, key: KeyCode) -> (r: bool)
        ensures
            r == self.pressed_set().contains(key),
    {
        self.pressed_keys[key.slot()]
    }

    pub fn just_pressed(&self, key: KeyCode) -> (r: bool)
        ensures
            r == self.just_pressed_set().contains(key),
    {
        self.just_pressed_keys[key.slot()]
    }

    pub fn just_released(&self, key: KeyCode) -> (r: bool)
        ensures
            r == self.just_released_set().contains(key),
    {
        self.just_released_keys[key.slot()]
    }

    /// Ends the frame: transitions are forgotten, held keys stay held.
    pub fn end_frame(&mut self)
        ensures
            final(self).pressed_set() == old(self).pressed_set(),
            final(self).just_pressed_set() == Set::<KeyCode>::empty(),
            final(self).just_released_set() == Set::<KeyCode>::empty(),
            final(self).consistent(),
    {
        self.just_pressed_keys = [false; 11];
        self.just_released_keys = [false; 11];
        assert(self.just_pressed_set() =~= Set::<KeyCode>::empty());
        assert(self.just_released_set() =~= Set::<KeyCode>::empty());
    }

    /// Whether `key` is held.
    pub fn is_key_down(&self, key: KeyCode) -> (r: bool)
        ensures
            r == self.pressed_set().contains(key),
    {
        self.pressed(key)
    }
}

impl Default for InputState {
    fn default() -> (s: Self)
        ensures
            s.pressed_set() == Set::<KeyCode>::empty(),
            s.just_pressed_set() == Set::<KeyCode>::empty(),
            s.just_released_set() == Set::<KeyCode>::empty(),
    {
        InputState::new()
    }
}

/// Whether a key went down or up.
#[derive(Debug, Clone, Copy, PartialEq, Eq, Structural)]
pub enum KeyTransition {
    Pressed,
    Released,
}

/// The window-side input accumulated between game frames.
#[derive(Debug, Clone, Copy)]
pub struct DesktopInputFrame {
    state: InputState,
    escape_requested: bool,
}

impl DesktopInputFrame {
    pub closed spec fn spec_state(&self) -> InputState {
        self.state
    }

    pub closed spec fn spec_escape_requested(&self) -> bool {
        self.escape_requested
    }

    /// No keys, no exit request.
    pub fn new() -> (f: Self)
        ensures
            f.spec_state().pressed_set() == Set::<KeyCode>::empty(),
            f.spec_state().just_pressed_set() == Set::<KeyCode>::empty(),
            f.spec_state().just_released_set() == Set::<KeyCode>::empty(),
            !f.spec_escape_requested(),
    {
        DesktopInputFrame { state: InputState::new(), escape_requested: false }
    }

    pub fn state(&self) -> (s: InputState)
        ensures
            s == self.spec_state(),
    {
        self.state
    }

    pub fn escape_requested(&self) -> (r: bool)
        ensures
            r == self.spec_escape_requested(),
    {
        self.escape_requested
    }

    /// Applies a window key event; `key` is `None` for keys the engine does
    /// not map, which are ignored. Pressing Escape requests exit.
    pub fn apply_keyboard_input(&mut self, key: Option<KeyCode>, transition: KeyTransition)
        ensures
            match key {
                None => *final(self) == *old(self),
                Some(k) => match transition {
                    KeyTransition::Pressed => {
                        &&& final(self).spec_escape_requested() == (old(
                            self,
                        ).spec_escape_requested() || k == KeyCode::Escape)
                        &&& pressed_after(old(self).spec_state(), final(self).spec_state(), k)
                    },
                    KeyTransition::Released => {
                        &&& final(self).spec_escape_requested() == old(
                            self,
                        ).spec_escape_requested()
                        &&& released_after(old(self).spec_state(), final(self).spec_state(), k)
                    },
                },
            },
    {
        let key = match key {
            Some(k) => k,
            None => {
                return;
            },
        };
        match transition {
            KeyTransition::Pressed => {
                self.state.press(key);
                if key == KeyCode::Escape {
                    self.escape_requested = true;
                }
            },
            KeyTransition::Released => {
                self.state.release(key);
            },
        }
    }

    /// Starts a game frame: the game sees the accumulated input; returns
    /// whether exit was requested.
    pub fn begin_game_frame(&mut self, game_input: &mut InputState) -> (escape: bool)
        ensures
            *final(game_input) == old(self).spec_state(),
            *final(self) == *old(self),
            escape == old(self).spec_escape_requested(),
    {
        *game_input = self.state;
        self.escape_requested
    }

    /// Ends a game frame: takes the game's input back with its transitions
    /// cleared, and drops the exit request.
    pub fn end_game_frame(&mut self, game_input: &InputState)
        ensures
            final(self).spec_state().pressed_set() == game_input.pressed_set(),
            final(self).spec_state().just_pressed_set() == Set::<KeyCode>::empty(),
            final(self).spec_state().just_released_set() == Set::<KeyCode>::empty(),
            !final(self).spec_escape_requested(),
    {
        self.state = *game_input;
        self.state.end_frame();
        self.escape_requested = false;
    }
}

/// `after` is `before` with `key` pressed (see `InputState::press`).
pub open spec fn pressed_after(before: InputState, after: InputState, key: KeyCode) -> bool {
    if before.pressed_set().contains(key) {
        after == before
    } else {
        &&& after.pressed_set() == before.pressed_set().insert(key)
        &&& after.just_pressed_set() == before.just_pressed_set().insert(key)
        &&& after.just_released_set() == before.just_released_set().remove(key)
    }
}

/// `after` is `before` with `key` released (see `InputState::release`).
pub open spec fn released_after(before: InputState, after: InputState, key: KeyCode) -> bool {
    if before.pressed_set().contains(key) {
        &&& after.pressed_set() == before.pressed_set().remove(key)
        &&& after.just_released_set() == before.just_released_set().insert(key)
        &&& after.just_pressed_set() == before.just_pressed_set().remove(key)
    } else {
        after == before
    }
}

/// The key a configuration name denotes.
pub open spec fn key_named(name: Seq<char>) -> Option<KeyCode> {
    if name == "ArrowUp"@ {
        Some(KeyCode::ArrowUp)
    } else if name == "ArrowDown"@ {
        Some(KeyCode::ArrowDown)
    } else if name == "ArrowLeft"@ {
        Some(KeyCode::ArrowLeft)
    } else if name == "ArrowRight"@ {
        Some(KeyCode::ArrowRight)
    } else if name == "KeyW"@ || name == "W"@ {
        Some(KeyCode::KeyW)
    } else if name == "KeyA"@ || name == "A"@ {
        Some(KeyCode::KeyA)
    } else if name == "KeyS"@ || name == "S"@ {
        Some(KeyCode::KeyS)
    } else if name == "KeyD"@ || name == "D"@ {
        Some(KeyCode::KeyD)
    } else if name == "Space"@ {
        Some(KeyCode::Space)
    } else if name == "Enter"@ {
        Some(KeyCode::Enter)
    } else if name == "Escape"@ {
        Some(KeyCode::Escape)
    } else {
        None
    }
}

/// The key named `key` in a project's input configuration.
pub fn parse_key_code(key: &str) -> (r: Option<KeyCode>)
    ensures
        r == key_named(key@),
{
    if str_eq(key, "ArrowUp") {
        Some(KeyCode::ArrowUp)
    } else if str_eq(key, "ArrowDown") {
        Some(KeyCode::ArrowDown)
    } else if str_eq(key, "ArrowLeft") {
        Some(KeyCode::ArrowLeft)
    } else if str_eq(key, "ArrowRight") {
        Some(KeyCode::ArrowRight)
    } else if str_eq(key, "KeyW") || str_eq(key, "W") {
        Some(KeyCode::KeyW)
    } else if str_eq(key, "KeyA") || str_eq(key, "A") {
        Some(KeyCode::KeyA)
    } else if str_eq(key, "KeyS") || str_eq(key, "S") {
        Some(KeyCode::KeyS)
    } else if str_eq(key, "KeyD") || str_eq(key, "D") {
        Some(KeyCode::KeyD)
    } else if str_eq(key, "Space") {
        Some(KeyCode::Space)
    } else if str_eq(key, "Enter") {
        Some(KeyCode::Enter)
    } else if str_eq(key, "Escape") {
        Some(KeyCode::Escape)
    } else {
        None
    }
}

/// The keys named in `names`, in order, skipping unknown names.
pub open spec fn keys_named(names: Seq<Seq<char>>) -> Seq<KeyCode>
    decreases names.len(),
{
    if names.len() == 0 {
        Seq::empty()
    } else {
        let rest = keys_named(names.drop_last());
        match key_named(names.last()) {
            Some(k) => rest.push(k),
            None => rest,
        }
    }
}

/// The views of a list of strings.
pub open spec fn string_views(v: Seq<String>) -> Seq<Seq<char>> {
    v.map_values(|s: String| s@)
}

/// The keys named in `keys`, in order; unknown names are skipped.
pub fn parse_key_list(keys: Vec<String>) -> (r: Vec<KeyCode>)
    ensures
        r@ == keys_named(string_views(keys@)),
{
    let mut r: Vec<KeyCode> = Vec::new();
    let mut i: usize = 0;
    while i < keys.len()
        invariant
            i <= keys.len(),
            r@ == keys_named(string_views(keys@).take(i as int)),
        decreases keys.len() - i,
    {
        let ghost prefix = string_views(keys@).take(i as int);
        proof {
            assert(string_views(keys@).take(i + 1).drop_last() =~= prefix);
            assert(string_views(keys@).take(i + 1).last() == keys@[i as int]@);
        }
        match parse_key_code(keys[i].as_str()) {
            Some(k) => {
                r.push(k);
            },
            None => {},
        }
        i = i + 1;
    }
    assert(string_views(keys@).take(keys@.len() as int) =~= string_views(keys@));
    r
}

/// Whether some key of `keys` satisfies `held`.
pub open spec fn any_in(keys: Seq<KeyCode>, held: Set<KeyCode>) -> bool {
    exists|i: int| 0 <= i < keys.len() && held.contains(#[trigger] keys[i])
}

/// The direction of an axis: `-1` when only the negative side is active, `1`
/// when only the positive side is, `0` otherwise.
pub open spec fn axis_direction(negative: bool, positive: bool) -> i8 {
    if negative && !positive {
        -1i8
    } else if !negative && positive {
        1i8
    } else {
        0i8
    }
}

fn any_key_in(keys: &Vec<KeyCode>, set: &[bool; 11], ghost_set: Ghost<Set<KeyCode>>) -> (r: bool)
    requires
        forall|k: KeyCode| ghost_set@.contains(k) == set@[key_slot(k)],
    ensures
        r == any_in(keys@, ghost_set@),
{
    let mut i: usize = 0;
    while i < keys.len()
        invariant
            i <= keys.len(),
            forall|k: KeyCode| ghost_set@.contains(k) == set@[key_slot(k)],
            forall|j: int| 0 <= j < i ==> !ghost_set@.contains(#[trigger] keys@[j]),
        decreases keys.len() - i,
    {
        if set[keys[i].slot()] {
            assert(ghost_set@.contains(keys@[i as int]));
            return true;
        }
        i = i + 1;
    }
    false
}

impl InputState {
    /// Whether any of `keys` is held.
    pub fn any_pressed(&self, keys: &Vec<KeyCode>) -> (r: bool)
        ensures
            r == any_in(keys@, self.pressed_set()),
    {
        any_key_in(keys, &self.pressed_keys, Ghost(self.pressed_set()))
    }

    /// Whether any of `keys` was pressed this frame.
    pub fn any_just_pressed(&self, keys: &Vec<KeyCode>) -> (r: bool)
        ensures
            r == any_in(keys@, self.just_pressed_set()),
    {
        any_key_in(keys, &self.just_pressed_keys, Ghost(self.just_pressed_set()))
    }

    /// Whether any of `keys` was released this frame.
    pub fn any_just_released(&self, keys: &Vec<KeyCode>) -> (r: bool)
        ensures
            r == any_in(keys@, self.just_released_set()),
    {
        any_key_in(keys, &self.just_released_keys, Ghost(self.just_released_set()))
    }
}

/// The direction between two keys: `-1` when only `negative` is held, `1`
/// when only `positive` is, `0` otherwise.
pub fn axis(input: &InputState, negative: KeyCode, positive: KeyCode) -> (r: i8)
    ensures
        r == axis_direction(
            input.pressed_set().contains(negative),
            input.pressed_set().contains(positive),
        ),
{
    let n = input.pressed(negative);
    let p = input.pressed(positive);
    if n && !p {
        -1
    } else if !n && p {
        1
    } else {
        0
    }
}

/// The direction between two key groups, by whether any key of each is held.
pub fn action_axis(input: &InputState, negative: &Vec<KeyCode>, positive: &Vec<KeyCode>) -> (r:
    i8)
    ensures
        r == axis_direction(
            any_in(negative@, input.pressed_set()),
            any_in(positive@, input.pressed_set()),
        ),
{
    let n = input.any_pressed(negative);
    let p = input.any_pressed(positive);
    if n && !p {
        -1
    } else if !n && p {
        1
    } else {
        0
    }
}

} // verus!
