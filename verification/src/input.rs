use vstd::prelude::*;
use std::collections::HashSet;
use crate::event::Event;

verus! {

broadcast use vstd::std_specs::hash::group_hash_axioms;

/// The mathematical model of one tri-state code set: which codes are
/// held down, and which transitioned within the current frame.
#[verifier::ext_equal]
pub struct StateModel {
    pub pressed: Set<u32>,
    pub just_pressed: Set<u32>,
    pub just_released: Set<u32>,
}

/// The model of the whole input tracker: key and button tri-states,
/// the absolute pointer position, and the per-frame motion offset.
#[verifier::ext_equal]
pub struct InputModel {
    pub keys: StateModel,
    pub buttons: StateModel,
    pub position_x: int,
    pub position_y: int,
    pub offset_x: int,
    pub offset_y: int,
}

/// Press transition: the code joins `pressed` and `just_pressed` and
/// leaves `just_released`, so it never sits in both transient sets.
/// Inserting twice is the same as inserting once, so repeated native
/// down events are absorbed here.
pub open spec fn state_press(m: StateModel, code: u32) -> StateModel {
    StateModel {
        pressed: m.pressed.insert(code),
        just_pressed: m.just_pressed.insert(code),
        just_released: m.just_released.remove(code),
    }
}

/// Release transition: the code leaves `pressed` and `just_pressed`
/// and joins `just_released`; repeated up events are likewise
/// absorbed, and the code never sits in both transient sets.
pub open spec fn state_release(m: StateModel, code: u32) -> StateModel {
    StateModel {
        pressed: m.pressed.remove(code),
        just_pressed: m.just_pressed.remove(code),
        just_released: m.just_released.insert(code),
    }
}

/// No code is marked both just pressed and just released: the per-code
/// transient sets are mutually exclusive within a frame.
pub open spec fn transients_exclusive(m: StateModel) -> bool {
    forall|c: u32| #[trigger] m.just_pressed.contains(c) ==> !m.just_released.contains(c)
}

/// Addition clamped to the `i64` range; motion offsets accumulate with
/// this so that a frame with many motion events cannot overflow.
pub open spec fn sat_add_i64(a: int, b: int) -> int {
    if a + b > i64::MAX {
        i64::MAX as int
    } else if a + b < i64::MIN {
        i64::MIN as int
    } else {
        a + b
    }
}

/// How one raw event transforms the tracker model: key and button
/// events drive their tri-states, motion overwrites the position and
/// accumulates into the offset, and every other kind leaves the model
/// unchanged.
pub open spec fn apply_event(m: InputModel, e: Event) -> InputModel {
    match e {
        Event::KeyDown { code } => InputModel { keys: state_press(m.keys, code), ..m },
        Event::KeyUp { code } => InputModel { keys: state_release(m.keys, code), ..m },
        Event::MouseButtonDown { code } => InputModel {
            buttons: state_press(m.buttons, code),
            ..m
        },
        Event::MouseButtonUp { code } => InputModel {
            buttons: state_release(m.buttons, code),
            ..m
        },
        Event::MouseMotion { x, y, dx, dy } => InputModel {
            position_x: x as int,
            position_y: y as int,
            offset_x: sat_add_i64(m.offset_x, dx as int),
            offset_y: sat_add_i64(m.offset_y, dy as int),
            ..m
        },
        Event::Resized => m,
        Event::Quit => m,
        Event::Other => m,
    }
}

/// One tri-state set of input codes, backed by hash sets.
pub struct InputState {
    pressed: HashSet<u32>,
    just_pressed: HashSet<u32>,
    just_released: HashSet<u32>,
}

impl View for InputState {
    type V = StateModel;

    closed spec fn view(&self) -> StateModel {
        StateModel {
            pressed: self.pressed@,
            just_pressed: self.just_pressed@,
            just_released: self.just_released@,
        }
    }
}

impl InputState {
    /// An empty tri-state: nothing pressed, no transitions.
    pub fn new() -> (s: Self)
        ensures
            s@.pressed == Set::<u32>::empty(),
            s@.just_pressed == Set::<u32>::empty(),
            s@.just_released == Set::<u32>::empty(),
    {
        InputState {
            pressed: HashSet::new(),
            just_pressed: HashSet::new(),
            just_released: HashSet::new(),
        }
    }

    /// Records a down transition for `code`.
    pub fn press(&mut self, code: u32)
        ensures
            final(self)@ == state_press(old(self)@, code),
    {
        self.pressed.insert(code);
        self.just_pressed.insert(code);
        self.just_released.remove(&code);
    }

    /// Records an up transition for `code`.
    pub fn release(&mut self, code: u32)
        ensures
            final(self)@ == state_release(old(self)@, code),
    {
        self.pressed.remove(&code);
        self.just_pressed.remove(&code);
        self.just_released.insert(code);
    }

    /// Per-frame reset: clears the transient sets and keeps `pressed`.
    pub fn update(&mut self)
        ensures
            final(self)@.pressed == old(self)@.pressed,
            final(self)@.just_pressed == Set::<u32>::empty(),
            final(self)@.just_released == Set::<u32>::empty(),
    {
        self.just_pressed.clear();
        self.just_released.clear();
    }

    fn contains(&self, code: u32) -> (r: bool)
        ensures
            r == self@.pressed.contains(code),
    {
        self.pressed.contains(&code)
    }

    fn contains_just_pressed(&self, code: u32) -> (r: bool)
        ensures
            r == self@.just_pressed.contains(code),
    {
        self.just_pressed.contains(&code)
    }

    fn contains_just_released(&self, code: u32) -> (r: bool)
        ensures
            r == self@.just_released.contains(code),
    {
        self.just_released.contains(&code)
    }
}

/// Signed horizontal or vertical axis from two opposing codes: +1 when
/// only the positive code is held, -1 when only the negative one is,
/// 0 when neither or both are.
pub open spec fn axis_value(m: StateModel, negative: u32, positive: u32) -> int {
    (if m.pressed.contains(positive) {
        1int
    } else {
        0int
    }) - (if m.pressed.contains(negative) {
        1int
    } else {
        0int
    })
}

/// The directional helper's value: the x axis from left/right, the
/// y axis from up/down, with positive y pointing down the screen.
pub open spec fn direction_value(m: StateModel, left: u32, right: u32, up: u32, down: u32) -> (
    int,
    int,
) {
    (axis_value(m, left, right), axis_value(m, up, down))
}

/// The input tracker: per-frame key and mouse-button tri-states and
/// pointer state. `update` runs once per frame before that frame's
/// events are ingested through `process_event`.
pub struct InputContext {
    key_state: InputState,
    mouse_state: InputState,
    position_x: i32,
    position_y: i32,
    offset_x: i64,
    offset_y: i64,
}

impl View for InputContext {
    type V = InputModel;

    closed spec fn view(&self) -> InputModel {
        InputModel {
            keys: self.key_state@,
            buttons: self.mouse_state@,
            position_x: self.position_x as int,
            position_y: self.position_y as int,
            offset_x: self.offset_x as int,
            offset_y: self.offset_y as int,
        }
    }
}

/// The tracker state at startup: empty sets, pointer at the origin.
pub open spec fn empty_state() -> StateModel {
    StateModel {
        pressed: Set::<u32>::empty(),
        just_pressed: Set::<u32>::empty(),
        just_released: Set::<u32>::empty(),
    }
}

/// The whole-tracker startup model.
pub open spec fn empty_input() -> InputModel {
    InputModel {
        keys: empty_state(),
        buttons: empty_state(),
        position_x: 0,
        position_y: 0,
        offset_x: 0,
        offset_y: 0,
    }
}

impl InputContext {
    /// A tracker with no recorded input.
    pub fn new() -> (s: Self)
        ensures
            s@ == empty_input(),
    {
        let s = InputContext {
            key_state: InputState::new(),
            mouse_state: InputState::new(),
            position_x: 0,
            position_y: 0,
            offset_x: 0,
            offset_y: 0,
        };
        proof {
            assert(s@ =~~= empty_input());
        }
        s
    }

    /// Whether `key_code` is held down right now.
    pub fn key_pressed(&self, key_code: u32) -> (r: bool)
        ensures
            r == self@.keys.pressed.contains(key_code),
    {
        self.key_state.contains(key_code)
    }

    /// Whether `key_code` went down within the current frame.
    pub fn key_just_pressed(&self, key_code: u32) -> (r: bool)
        ensures
            r == self@.keys.just_pressed.contains(key_code),
    {
        self.key_state.contains_just_pressed(key_code)
    }

    /// Whether `key_code` went up within the current frame.
    pub fn key_just_released(&self, key_code: u32) -> (r: bool)
        ensures
            r == self@.keys.just_released.contains(key_code),
    {
        self.key_state.contains_just_released(key_code)
    }

    /// The axis vector built from four direction keys, each component
    /// in -1..=1; the zero pair when no direction key is held. Callers
    /// that want a unit-length vector normalize the pair themselves:
    /// that step is floating point and stays outside this core.
    pub fn key_direction(&self, left: u32, right: u32, up: u32, down: u32) -> (r: (i32, i32))
        ensures
            (r.0 as int, r.1 as int) == direction_value(self@.keys, left, right, up, down),
            -1 <= r.0 <= 1,
            -1 <= r.1 <= 1,
    {
        let xp: i32 = if self.key_pressed(right) {
            1
        } else {
            0
        };
        let xn: i32 = if self.key_pressed(left) {
            1
        } else {
            0
        };
        let yp: i32 = if self.key_pressed(down) {
            1
        } else {
            0
        };
        let yn: i32 = if self.key_pressed(up) {
            1
        } else {
            0
        };
        (xp - xn, yp - yn)
    }

    /// Whether `mouse_code` is held down right now.
    pub fn mouse_pressed(&self, mouse_code: u32) -> (r: bool)
        ensures
            r == self@.buttons.pressed.contains(mouse_code),
    {
        self.mouse_state.contains(mouse_code)
    }

    /// Whether `mouse_code` went down within the current frame.
    pub fn mouse_just_pressed(&self, mouse_code: u32) -> (r: bool)
        ensures
            r == self@.buttons.just_pressed.contains(mouse_code),
    {
        self.mouse_state.contains_just_pressed(mouse_code)
    }

    /// Whether `mouse_code` went up within the current frame.
    pub fn mouse_just_released(&self, mouse_code: u32) -> (r: bool)
        ensures
            r == self@.buttons.just_released.contains(mouse_code),
    {
        self.mouse_state.contains_just_released(mouse_code)
    }

    /// The last absolute pointer position reported by a motion event.
    pub fn mouse_position(&self) -> (r: (i32, i32))
        ensures
            r.0 as int == self@.position_x,
            r.1 as int == self@.position_y,
    {
        (self.position_x, self.position_y)
    }

    /// The pointer motion accumulated since the frame began.
    pub fn mouse_offset(&self) -> (r: (i64, i64))
        ensures
            r.0 as int == self@.offset_x,
            r.1 as int == self@.offset_y,
    {
        (self.offset_x, self.offset_y)
    }

    /// Folds one raw event into the tracker, exactly as `apply_event`
    /// describes.
    pub fn process_event(&mut self, event: &Event)
        ensures
            final(self)@ == apply_event(old(self)@, *event),
    {
        match *event {
            Event::KeyDown { code } => self.key_state.press(code),
            Event::KeyUp { code } => self.key_state.release(code),
            Event::MouseButtonDown { code } => self.mouse_state.press(code),
            Event::MouseButtonUp { code } => self.mouse_state.release(code),
            Event::MouseMotion { x, y, dx, dy } => {
                self.position_x = x;
                self.position_y = y;
                self.offset_x = sat_add(self.offset_x, dx as i64);
                self.offset_y = sat_add(self.offset_y, dy as i64);
            },
            Event::Resized => (),
            Event::Quit => (),
            Event::Other => (),
        }
        proof {
            assert(self@ =~~= apply_event(old(self)@, *event));
        }
    }

    /// Per-frame reset, run exactly once per frame before that frame's
    /// events: clears both transient sets and the motion offset while
    /// keeping the held-down sets and the pointer position.
    pub fn update(&mut self)
        ensures
            final(self)@.keys.pressed == old(self)@.keys.pressed,
            final(self)@.keys.just_pressed == Set::<u32>::empty(),
            final(self)@.keys.just_released == Set::<u32>::empty(),
            final(self)@.buttons.pressed == old(self)@.buttons.pressed,
            final(self)@.buttons.just_pressed == Set::<u32>::empty(),
            final(self)@.buttons.just_released == Set::<u32>::empty(),
            final(self)@.position_x == old(self)@.position_x,
            final(self)@.position_y == old(self)@.position_y,
            final(self)@.offset_x == 0,
            final(self)@.offset_y == 0,
    {
        self.mouse_state.update();
        self.key_state.update();
        self.offset_x = 0;
        self.offset_y = 0;
    }
}

impl Default for InputContext {
    /// Same state as `InputContext::new`.
    fn default() -> (s: Self)
        ensures
            s@ == empty_input(),
    {
        InputContext::new()
    }
}

/// Addition on `i64` clamped to the representable range, matching
/// `sat_add_i64`.
fn sat_add(a: i64, b: i64) -> (r: i64)
    ensures
        r as int == sat_add_i64(a as int, b as int),
{
    if b >= 0 {
        if a > i64::MAX - b {
            i64::MAX
        } else {
            a + b
        }
    } else {
        if a < i64::MIN - b {
            i64::MIN
        } else {
            a + b
        }
    }
}

/// Law: a repeated down event within one frame changes nothing; the
/// observable state after pressing a code twice equals the state after
/// pressing it once.
pub proof fn lemma_press_idempotent(m: InputModel, code: u32)
    ensures
        apply_event(apply_event(m, Event::KeyDown { code }), Event::KeyDown { code })
            == apply_event(m, Event::KeyDown { code }),
        apply_event(apply_event(m, Event::MouseButtonDown { code }), Event::MouseButtonDown { code })
            == apply_event(m, Event::MouseButtonDown { code }),
{
    assert(m.keys.pressed.insert(code).insert(code) =~= m.keys.pressed.insert(code));
    assert(m.keys.just_pressed.insert(code).insert(code) =~= m.keys.just_pressed.insert(code));
    assert(m.keys.just_released.remove(code).remove(code) =~= m.keys.just_released.remove(code));
    assert(m.buttons.pressed.insert(code).insert(code) =~= m.buttons.pressed.insert(code));
    assert(m.buttons.just_pressed.insert(code).insert(code) =~= m.buttons.just_pressed.insert(
        code,
    ));
    assert(m.buttons.just_released.remove(code).remove(code) =~= m.buttons.just_released.remove(
        code,
    ));
    assert(apply_event(apply_event(m, Event::KeyDown { code }), Event::KeyDown { code })
        =~~= apply_event(m, Event::KeyDown { code }));
    assert(apply_event(
        apply_event(m, Event::MouseButtonDown { code }),
        Event::MouseButtonDown { code },
    ) =~~= apply_event(m, Event::MouseButtonDown { code }));
}

/// Law: a repeated up event within one frame changes nothing either.
pub proof fn lemma_release_idempotent(m: InputModel, code: u32)
    ensures
        apply_event(apply_event(m, Event::KeyUp { code }), Event::KeyUp { code })
            == apply_event(m, Event::KeyUp { code }),
        apply_event(apply_event(m, Event::MouseButtonUp { code }), Event::MouseButtonUp { code })
            == apply_event(m, Event::MouseButtonUp { code }),
{
    assert(m.keys.pressed.remove(code).remove(code) =~= m.keys.pressed.remove(code));
    assert(m.keys.just_pressed.remove(code).remove(code) =~= m.keys.just_pressed.remove(code));
    assert(m.keys.just_released.insert(code).insert(code) =~= m.keys.just_released.insert(code));
    assert(m.buttons.pressed.remove(code).remove(code) =~= m.buttons.pressed.remove(code));
    assert(m.buttons.just_pressed.remove(code).remove(code) =~= m.buttons.just_pressed.remove(
        code,
    ));
    assert(m.buttons.just_released.insert(code).insert(code) =~= m.buttons.just_released.insert(
        code,
    ));
    assert(apply_event(apply_event(m, Event::KeyUp { code }), Event::KeyUp { code })
        =~~= apply_event(m, Event::KeyUp { code }));
    assert(apply_event(
        apply_event(m, Event::MouseButtonUp { code }),
        Event::MouseButtonUp { code },
    ) =~~= apply_event(m, Event::MouseButtonUp { code }));
}

/// Law: each code sits in at most one transient set per frame. A
/// press clears the code's release mark and a release its press mark,
/// so every event preserves the exclusivity that the per-frame reset
/// establishes with its empty transient sets.
pub proof fn lemma_transients_exclusive(m: InputModel, e: Event)
    requires
        transients_exclusive(m.keys),
        transients_exclusive(m.buttons),
    ensures
        transients_exclusive(apply_event(m, e).keys),
        transients_exclusive(apply_event(m, e).buttons),
{
}

/// Law: the directional helper at its boundaries. With no direction
/// key held it is the zero pair; with both horizontal keys held the
/// x axis cancels to zero; with only the up key held it is the unit
/// pair pointing up the screen.
pub proof fn lemma_direction_boundary(m: StateModel, left: u32, right: u32, up: u32, down: u32)
    ensures
        !m.pressed.contains(left) && !m.pressed.contains(right) && !m.pressed.contains(up)
            && !m.pressed.contains(down) ==> direction_value(m, left, right, up, down) == (
        0int,
        0int,
        ),
        m.pressed.contains(left) && m.pressed.contains(right) ==> direction_value(
            m,
            left,
            right,
            up,
            down,
        ).0 == 0,
        m.pressed.contains(up) && !m.pressed.contains(down) && !m.pressed.contains(left)
            && !m.pressed.contains(right) ==> direction_value(m, left, right, up, down) == (
        0int,
        -1int,
        ),
{
}

} // verus!
