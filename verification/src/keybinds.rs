use vstd::prelude::*;

verus! {

/// The fixed set of input actions the simulation reacts to.
#[derive(PartialEq, Eq, Clone, Copy, Debug, Structural)]
pub enum KeyAction {
    Boost,
    Slow,
    Pause,
    Debug,
}

/// Tri-state press status of a bound action, refreshed once per frame.
#[derive(PartialEq, Eq, Clone, Copy, Debug, Structural)]
pub enum PressedState {
    JustPressed,
    Pressed,
    Off,
}

impl PressedState {
    /// The state after one frame in which the action's keys are down (`held == true`)
    /// or up (`held == false`).
    pub open spec fn spec_update(self, held: bool) -> PressedState {
        if held {
            if self == PressedState::Off {
                PressedState::JustPressed
            } else {
                PressedState::Pressed
            }
        } else {
            PressedState::Off
        }
    }

    /// True exactly in the first frame of a press.
    pub fn is_just_pressed(self) -> (r: bool)
        ensures
            r == (self == PressedState::JustPressed),
    {
        match self {
            Self::JustPressed => true,
            Self::Pressed => false,
            Self::Off => false,
        }
    }

    /// True while the action is held, including the first frame of the press.
    pub fn is_pressed(self) -> (r: bool)
        ensures
            r == (self == PressedState::JustPressed || self == PressedState::Pressed),
    {
        match self {
            Self::JustPressed => true,
            Self::Pressed => true,
            Self::Off => false,
        }
    }

    /// True while the action is released.
    pub fn is_not_pressed(self) -> (r: bool)
        ensures
            r == (self == PressedState::Off),
    {
        !self.is_pressed()
    }

    /// Advances the edge-detection state machine by one frame.
    pub fn update(self, state: bool) -> (r: PressedState)
        ensures
            r == self.spec_update(state),
    {
        match (self, state) {
            (Self::Off, true) => Self::JustPressed,
            (_, true) => Self::Pressed,
            (_, false) => Self::Off,
        }
    }
}

/// The keys bound to one action, together with the action's press status.
/// Key codes are plain integers; the host maps them to its input device.
#[derive(Clone, Debug)]
pub struct Binding {
    pub keys: Vec<u32>,
    pub state: PressedState,
}

/// Is at least one of `keys` among the key codes currently held down?
pub open spec fn spec_any_down(keys: Seq<u32>, down: Seq<u32>) -> bool {
    exists|i: int| 0 <= i < keys.len() && down.contains(keys[i])
}

/// A mapping from each action to its bound keys and current press status.
#[derive(Clone, Debug)]
pub struct Keybinds {
    pub boost: Binding,
    pub slow: Binding,
    pub pause: Binding,
    pub debug: Binding,
}

impl Keybinds {
    /// The binding of `action`, as a spec-level value.
    pub open spec fn spec_binding(self, action: KeyAction) -> Binding {
        match action {
            KeyAction::Boost => self.boost,
            KeyAction::Slow => self.slow,
            KeyAction::Pause => self.pause,
            KeyAction::Debug => self.debug,
        }
    }

    /// The press status of `action`, as a spec-level value.
    pub open spec fn spec_state(self, action: KeyAction) -> PressedState {
        self.spec_binding(action).state
    }

    /// Is `action` held in the current frame (just pressed or still pressed)?
    pub open spec fn spec_is_pressed(self, action: KeyAction) -> bool {
        self.spec_state(action) == PressedState::JustPressed || self.spec_state(action)
            == PressedState::Pressed
    }

    /// The keybinds after one frame in which exactly the key codes in `down` are held.
    pub open spec fn spec_update(self, down: Seq<u32>) -> Keybinds {
        Keybinds {
            boost: Binding {
                keys: self.boost.keys,
                state: self.boost.state.spec_update(spec_any_down(self.boost.keys@, down)),
            },
            slow: Binding {
                keys: self.slow.keys,
                state: self.slow.state.spec_update(spec_any_down(self.slow.keys@, down)),
            },
            pause: Binding {
                keys: self.pause.keys,
                state: self.pause.state.spec_update(spec_any_down(self.pause.keys@, down)),
            },
            debug: Binding {
                keys: self.debug.keys,
                state: self.debug.state.spec_update(spec_any_down(self.debug.keys@, down)),
            },
        }
    }

    /// Refreshes every action's press status from the key codes currently held
    /// down (`down`), running each status through the edge-detection step.
    pub fn update(&mut self, down: &Vec<u32>)
        ensures
            *final(self) == old(self).spec_update(down@),
    {
        let held = any_down(&self.boost.keys, down);
        self.boost.state = self.boost.state.update(held);
        let held = any_down(&self.slow.keys, down);
        self.slow.state = self.slow.state.update(held);
        let held = any_down(&self.pause.keys, down);
        self.pause.state = self.pause.state.update(held);
        let held = any_down(&self.debug.keys, down);
        self.debug.state = self.debug.state.update(held);
    }

    /// Binds one more key code to `action`.
    pub fn add_key(&mut self, action: KeyAction, key_code: u32)
        ensures
            final(self).spec_binding(action).keys@ == old(self).spec_binding(action).keys@.push(
                key_code,
            ),
            final(self).spec_binding(action).state == old(self).spec_binding(action).state,
            forall|a: KeyAction|
                a != action ==> final(self).spec_binding(a) == old(self).spec_binding(a),
    {
        match action {
            KeyAction::Boost => self.boost.keys.push(key_code),
            KeyAction::Slow => self.slow.keys.push(key_code),
            KeyAction::Pause => self.pause.keys.push(key_code),
            KeyAction::Debug => self.debug.keys.push(key_code),
        }
    }

    /// The key codes bound to `action`.
    pub fn get_keys(&self, action: KeyAction) -> (r: &Vec<u32>)
        ensures
            *r == self.spec_binding(action).keys,
    {
        match action {
            KeyAction::Boost => &self.boost.keys,
            KeyAction::Slow => &self.slow.keys,
            KeyAction::Pause => &self.pause.keys,
            KeyAction::Debug => &self.debug.keys,
        }
    }

    /// The key codes bound to `action`, for rebinding in place; the press
    /// status and every other action's binding stay as they were.
    pub fn get_keys_mut(&mut self, action: KeyAction) -> (r: &mut Vec<u32>)
        ensures
            *r == old(self).spec_binding(action).keys,
            final(self).spec_binding(action).keys == *final(r),
            final(self).spec_binding(action).state == old(self).spec_binding(action).state,
            forall|a: KeyAction|
                a != action ==> final(self).spec_binding(a) == old(self).spec_binding(a),
    {
        match action {
            KeyAction::Boost => &mut self.boost.keys,
            KeyAction::Slow => &mut self.slow.keys,
            KeyAction::Pause => &mut self.pause.keys,
            KeyAction::Debug => &mut self.debug.keys,
        }
    }

    /// The press status of `action` in the current frame.
    pub fn get(&self, action: KeyAction) -> (r: PressedState)
        ensures
            r == self.spec_state(action),
    {
        match action {
            KeyAction::Boost => self.boost.state,
            KeyAction::Slow => self.slow.state,
            KeyAction::Pause => self.pause.state,
            KeyAction::Debug => self.debug.state,
        }
    }

    /// A snapshot of every action's press status.
    pub fn get_keybinds(&self) -> (r: Vec<(KeyAction, PressedState)>)
        ensures
            r@ == seq![
                (KeyAction::Boost, self.spec_state(KeyAction::Boost)),
                (KeyAction::Slow, self.spec_state(KeyAction::Slow)),
                (KeyAction::Pause, self.spec_state(KeyAction::Pause)),
                (KeyAction::Debug, self.spec_state(KeyAction::Debug)),
            ],
    {
        let mut r: Vec<(KeyAction, PressedState)> = Vec::new();
        r.push((KeyAction::Boost, self.boost.state));
        r.push((KeyAction::Slow, self.slow.state));
        r.push((KeyAction::Pause, self.pause.state));
        r.push((KeyAction::Debug, self.debug.state));
        proof {
            assert(r@ =~= seq![
                (KeyAction::Boost, self.spec_state(KeyAction::Boost)),
                (KeyAction::Slow, self.spec_state(KeyAction::Slow)),
                (KeyAction::Pause, self.spec_state(KeyAction::Pause)),
                (KeyAction::Debug, self.spec_state(KeyAction::Debug)),
            ]);
        }
        r
    }
}

impl Default for Keybinds {
    /// The stock bindings: boost on W or Up, pause on Escape; slow and the
    /// debug overlay start unbound.
    fn default() -> (r: Keybinds)
        ensures
            r.boost.keys@ == seq![87u32, 265u32],
            r.pause.keys@ == seq![256u32],
            r.slow.keys@ == Seq::<u32>::empty(),
            r.debug.keys@ == Seq::<u32>::empty(),
            forall|a: KeyAction| r.spec_state(a) == PressedState::Off,
    {
        let mut boost_keys: Vec<u32> = Vec::new();
        boost_keys.push(87);
        boost_keys.push(265);
        let mut pause_keys: Vec<u32> = Vec::new();
        pause_keys.push(256);
        let r = Keybinds {
            boost: Binding { keys: boost_keys, state: PressedState::Off },
            slow: Binding { keys: Vec::new(), state: PressedState::Off },
            pause: Binding { keys: pause_keys, state: PressedState::Off },
            debug: Binding { keys: Vec::new(), state: PressedState::Off },
        };
        proof {
            assert(r.boost.keys@ =~= seq![87u32, 265u32]);
            assert(r.pause.keys@ =~= seq![256u32]);
            assert(r.slow.keys@ =~= Seq::<u32>::empty());
            assert(r.debug.keys@ =~= Seq::<u32>::empty());
            assert(forall|a: KeyAction| r.spec_state(a) == PressedState::Off) by {
                assert(r.spec_state(KeyAction::Boost) == PressedState::Off);
                assert(r.spec_state(KeyAction::Slow) == PressedState::Off);
                assert(r.spec_state(KeyAction::Pause) == PressedState::Off);
                assert(r.spec_state(KeyAction::Debug) == PressedState::Off);
            }
        }
        r
    }
}

/// Is at least one key code of `keys` contained in `down`?
fn any_down(keys: &Vec<u32>, down: &Vec<u32>) -> (r: bool)
    ensures
        r == spec_any_down(keys@, down@),
{
    let mut i: usize = 0;
    while i < keys.len()
        invariant
            0 <= i <= keys@.len(),
            !(exists|k: int| 0 <= k < i && down@.contains(keys@[k])),
        decreases keys@.len() - i,
    {
        if contains_code(down, keys[i]) {
            return true;
        }
        i = i + 1;
    }
    false
}

/// Is `code` contained in `codes`?
fn contains_code(codes: &Vec<u32>, code: u32) -> (r: bool)
    ensures
        r == codes@.contains(code),
{
    let mut i: usize = 0;
    while i < codes.len()
        invariant
            0 <= i <= codes@.len(),
            !(exists|k: int| 0 <= k < i && codes@[k] == code),
        decreases codes@.len() - i,
    {
        if codes[i] == code {
            return true;
        }
        i = i + 1;
    }
    false
}

} // verus!
