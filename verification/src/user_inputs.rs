use vstd::prelude::*;
use crate::math::ZERO_BITS;

verus! {

/// How many key codes the input state tracks.
pub const KEY_CODES: usize = 256;

/// One discrete input event, as the embedder's window layer reports it:
/// keys are identified by an 8-bit code of the embedder's choosing, mouse
/// deltas are float bit patterns.
#[derive(Clone, Copy, PartialEq, Eq, Structural, Debug)]
pub enum InputEvent {
    KeyPressed(u8),
    KeyReleased(u8),
    MouseMotion { dx_bits: u32, dy_bits: u32 },
    Other,
}

/// The sampled input state: which keys are currently held, which were held
/// at the previous sample, and the mouse delta since the last sample.
pub struct UserInputs {
    keys_pressed: Vec<bool>,
    keys_pressed_prev: Vec<bool>,
    /// The mouse delta of the last sample (x and y bit patterns).
    pub mouse_delta: (u32, u32),
}

/// The key state after one event is applied.
pub open spec fn keys_after(keys: Seq<bool>, event: InputEvent) -> Seq<bool> {
    match event {
        InputEvent::KeyPressed(k) => keys.update(k as int, true),
        InputEvent::KeyReleased(k) => keys.update(k as int, false),
        _ => keys,
    }
}

/// The mouse delta one event reports: zero unless the event is a motion.
pub open spec fn delta_of(event: InputEvent) -> (u32, u32) {
    match event {
        InputEvent::MouseMotion { dx_bits, dy_bits } => (dx_bits, dy_bits),
        _ => (ZERO_BITS, ZERO_BITS),
    }
}

impl UserInputs {
    /// Both key tables cover every key code.
    pub open spec fn wf(&self) -> bool {
        self.spec_keys().len() == KEY_CODES && self.spec_keys_prev().len() == KEY_CODES
    }

    /// Which keys are currently held.
    pub closed spec fn spec_keys(&self) -> Seq<bool> {
        self.keys_pressed@
    }

    /// Which keys were held at the previous sample.
    pub closed spec fn spec_keys_prev(&self) -> Seq<bool> {
        self.keys_pressed_prev@
    }

    /// The mouse delta of the last sample.
    pub closed spec fn spec_delta(&self) -> (u32, u32) {
        self.mouse_delta
    }

    /// Whether `key` is currently held.
    pub fn pressed(&self, key: u8) -> (r: bool)
        requires
            self.wf(),
        ensures
            r == self.spec_keys()[key as int],
    {
        self.keys_pressed[key as usize]
    }

    /// Whether `key` went down since the previous sample: held now but not
    /// then.
    pub fn just_pressed(&self, key: u8) -> (r: bool)
        requires
            self.wf(),
        ensures
            r == (self.spec_keys()[key as int] && !self.spec_keys_prev()[key as int]),
    {
        self.keys_pressed[key as usize] && !self.keys_pressed_prev[key as usize]
    }

    /// Folds one event into the state: the previous-sample table becomes the
    /// current one, the mouse delta is the event's motion (or zero), and a
    /// key event toggles its key.
    pub fn update(&mut self, event: &InputEvent)
        requires
            old(self).wf(),
        ensures
            final(self).wf(),
            final(self).spec_keys_prev() == old(self).spec_keys(),
            final(self).spec_keys() == keys_after(old(self).spec_keys(), *event),
            final(self).spec_delta() == delta_of(*event),
    {
        self.mouse_delta = match *event {
            InputEvent::MouseMotion { dx_bits, dy_bits } => (dx_bits, dy_bits),
            _ => (ZERO_BITS, ZERO_BITS),
        };
        self.keys_pressed_prev = copy_flags(&self.keys_pressed);
        match *event {
            InputEvent::KeyPressed(k) => {
                let slot = &mut self.keys_pressed[k as usize];
                *slot = true;
                proof {
                    assert(self.keys_pressed@ =~= keys_after(old(self).spec_keys(), *event));
                }
            },
            InputEvent::KeyReleased(k) => {
                let slot = &mut self.keys_pressed[k as usize];
                *slot = false;
                proof {
                    assert(self.keys_pressed@ =~= keys_after(old(self).spec_keys(), *event));
                }
            },
            _ => {},
        }
    }
}

impl Default for UserInputs {
    /// No keys held, no motion.
    fn default() -> (r: UserInputs)
        ensures
            r.wf(),
            forall|k: int| 0 <= k < KEY_CODES ==> !r.spec_keys()[k] && !r.spec_keys_prev()[k],
            r.spec_delta() == (ZERO_BITS, ZERO_BITS),
    {
        UserInputs {
            keys_pressed: blank_flags(),
            keys_pressed_prev: blank_flags(),
            mouse_delta: (ZERO_BITS, ZERO_BITS),
        }
    }
}

/// A table of `KEY_CODES` cleared flags.
fn blank_flags() -> (r: Vec<bool>)
    ensures
        r@.len() == KEY_CODES,
        forall|k: int| 0 <= k < KEY_CODES ==> !r@[k],
{
    let mut out: Vec<bool> = Vec::new();
    let mut i: usize = 0;
    while i < KEY_CODES
        invariant
            i <= KEY_CODES,
            out@.len() == i,
            forall|k: int| 0 <= k < i ==> !out@[k],
        decreases KEY_CODES - i,
    {
        out.push(false);
        i = i + 1;
    }
    out
}

/// Copies a flag table.
fn copy_flags(src: &Vec<bool>) -> (r: Vec<bool>)
    ensures
        r@ == src@,
{
    let mut out: Vec<bool> = Vec::new();
    let mut i: usize = 0;
    while i < src.len()
        invariant
            i <= src@.len(),
            out@ =~= src@.take(i as int),
        decreases src@.len() - i,
    {
        out.push(src[i]);
        proof {
            assert(out@ =~= src@.take(i as int + 1));
        }
        i = i + 1;
    }
    proof {
        assert(src@.take(src@.len() as int) =~= src@);
    }
    out
}

} // verus!
