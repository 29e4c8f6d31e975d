//! Keyboard state of the viewer, and what it asks of the view.

use vstd::prelude::*;

verus! {

/// A camera movement.
#[derive(Clone, Copy, Debug, PartialEq, Eq, Structural)]
pub enum Movement {
    Forward,
    Backward,
    Left,
    Right,
    Up,
    Down,
}

/// The keys the viewer reacts to.
#[derive(Clone, Copy, Debug, PartialEq, Eq, Structural)]
pub enum Key {
    W,
    S,
    A,
    D,
    Q,
    E,
    Space,
    LShift,
    Other,
}

/// Which controls are held down. `inc` and `dec` are one-shot: they are
/// cleared once the iteration count has been changed for them.
#[derive(Clone, Copy, Debug, PartialEq, Eq, Structural)]
pub struct Controls {
    pub forward: bool,
    pub backward: bool,
    pub left: bool,
    pub right: bool,
    pub up: bool,
    pub down: bool,
    pub inc: bool,
    pub dec: bool,
    pub mouse: bool,
}

/// The controls after `key` goes to `state`; other keys change nothing.
pub open spec fn with_key(c: Controls, key: Option<Key>, state: bool) -> Controls {
    match key {
        Some(Key::W) => Controls { forward: state, ..c },
        Some(Key::S) => Controls { backward: state, ..c },
        Some(Key::A) => Controls { left: state, ..c },
        Some(Key::D) => Controls { right: state, ..c },
        Some(Key::Q) => Controls { inc: state, ..c },
        Some(Key::E) => Controls { dec: state, ..c },
        Some(Key::Space) => Controls { up: state, ..c },
        Some(Key::LShift) => Controls { down: state, ..c },
        _ => c,
    }
}

/// The movements that the held controls ask for, in a fixed order.
pub open spec fn movements_of(c: Controls) -> Seq<Movement> {
    (if c.forward { seq![Movement::Forward] } else { seq![] })
    + (if c.backward { seq![Movement::Backward] } else { seq![] })
    + (if c.left { seq![Movement::Left] } else { seq![] })
    + (if c.right { seq![Movement::Right] } else { seq![] })
    + (if c.up { seq![Movement::Up] } else { seq![] })
    + (if c.down { seq![Movement::Down] } else { seq![] })
}

/// Largest iteration count that a doubling starts from.
pub const MAX_ITER: i32 = 1024;

/// Smallest iteration count that a halving starts from.
pub const MIN_ITER: i32 = 2;

impl Controls {
    /// Nothing held.
    pub fn new() -> (r: Controls)
        ensures
            !r.forward && !r.backward && !r.left && !r.right && !r.up && !r.down,
            !r.inc && !r.dec && !r.mouse,
    {
        Controls {
            forward: false,
            backward: false,
            left: false,
            right: false,
            up: false,
            down: false,
            inc: false,
            dec: false,
            mouse: false,
        }
    }

    /// Records that `key` went to `state`.
    pub fn key_state_set(&mut self, key: Option<Key>, state: bool)
        ensures
            *final(self) == with_key(*old(self), key, state),
    {
        match key {
            Some(code) => {
                match code {
                    Key::W => self.forward = state,
                    Key::S => self.backward = state,
                    Key::A => self.left = state,
                    Key::D => self.right = state,
                    Key::Q => self.inc = state,
                    Key::E => self.dec = state,
                    Key::Space => self.up = state,
                    Key::LShift => self.down = state,
                    Key::Other => {},
                }
            },
            None => {},
        }
    }

    /// Records that `key` was released.
    pub fn key_up(&mut self, key: Option<Key>)
        ensures
            *final(self) == with_key(*old(self), key, false),
    {
        self.key_state_set(key, false)
    }

    /// Records that `key` was pressed.
    pub fn key_down(&mut self, key: Option<Key>)
        ensures
            *final(self) == with_key(*old(self), key, true),
    {
        self.key_state_set(key, true)
    }

    /// Records that the mouse button went to `state`.
    pub fn set_mouse(&mut self, state: bool)
        ensures
            *final(self) == (Controls { mouse: state, ..*old(self) }),
    {
        self.mouse = state;
    }

    /// The camera movements that the held keys ask for.
    pub fn movements(&self) -> (r: Vec<Movement>)
        ensures
            r@ == movements_of(*self),
    {
        let mut r: Vec<Movement> = Vec::new();
        if self.forward {
            r.push(Movement::Forward);
        }
        if self.backward {
            r.push(Movement::Backward);
        }
        if self.left {
            r.push(Movement::Left);
        }
        if self.right {
            r.push(Movement::Right);
        }
        if self.up {
            r.push(Movement::Up);
        }
        if self.down {
            r.push(Movement::Down);
        }
        proof {
            assert(r@ =~= movements_of(*self));
        }
        r
    }

    /// Doubles the iteration count for a pending `inc` if it is below
    /// [`MAX_ITER`], then halves it for a pending `dec` if it is above
    /// [`MIN_ITER`]; each request is cleared when it is served.
    pub fn update_iterations(&mut self, iter: &mut i32)
        requires
            *old(iter) >= i32::MIN / 2,
        ensures
            ({
                let doubled = old(self).inc && *old(iter) < MAX_ITER;
                let mid = if doubled { 2 * *old(iter) } else { *old(iter) as int };
                let halved = old(self).dec && mid > MIN_ITER;
                &&& *final(iter) == if halved { mid / 2 } else { mid }
                &&& final(self).inc == (old(self).inc && !doubled)
                &&& final(self).dec == (old(self).dec && !halved)
                &&& *final(self) == (Controls { inc: final(self).inc, dec: final(self).dec, ..*old(self) })
            }),
    {
        if self.inc && *iter < MAX_ITER {
            *iter = *iter * 2;
            self.inc = false;
        }
        if self.dec && *iter > MIN_ITER {
            *iter = *iter / 2;
            self.dec = false;
        }
    }
}

} // verus!
