use vstd::prelude::*;

verus! {

/// A key the camera responds to.
#[derive(Clone, Copy, Debug, PartialEq, Eq, Structural)]
pub enum CameraKey {
    Forward,
    Back,
    Left,
    Right,
    Up,
    Down,
    Boost,
}

/// The camera's movement intent: six directional flags and a boost flag, each
/// set while its key is held.
#[derive(Clone, Copy, Debug, PartialEq, Eq, Structural)]
pub struct MoveIntent {
    pub forward: bool,
    pub back: bool,
    pub left: bool,
    pub right: bool,
    pub up: bool,
    pub down: bool,
    pub boost: bool,
}

/// Speed multiplier while boost is held.
pub const BOOST_FACTOR: u32 = 5;

/// The net direction along one axis: +1, 0 or -1.
pub open spec fn net(pos: bool, neg: bool) -> i8 {
    if pos && !neg {
        1i8
    } else if neg && !pos {
        -1i8
    } else {
        0i8
    }
}

impl MoveIntent {
    /// The flag that `key` drives.
    pub open spec fn flag(self, key: CameraKey) -> bool {
        match key {
            CameraKey::Forward => self.forward,
            CameraKey::Back => self.back,
            CameraKey::Left => self.left,
            CameraKey::Right => self.right,
            CameraKey::Up => self.up,
            CameraKey::Down => self.down,
            CameraKey::Boost => self.boost,
        }
    }

    /// This intent with the flag of `key` set to `held`, the others kept.
    pub open spec fn with_flag(self, key: CameraKey, held: bool) -> MoveIntent {
        match key {
            CameraKey::Forward => MoveIntent { forward: held, ..self },
            CameraKey::Back => MoveIntent { back: held, ..self },
            CameraKey::Left => MoveIntent { left: held, ..self },
            CameraKey::Right => MoveIntent { right: held, ..self },
            CameraKey::Up => MoveIntent { up: held, ..self },
            CameraKey::Down => MoveIntent { down: held, ..self },
            CameraKey::Boost => MoveIntent { boost: held, ..self },
        }
    }

    /// (forward, right, up) steps: each axis is +1, 0 or -1.
    pub open spec fn spec_axes(self) -> (i8, i8, i8) {
        (net(self.forward, self.back), net(self.right, self.left), net(self.up, self.down))
    }

    /// No key held.
    pub fn new() -> (r: MoveIntent)
        ensures
            r == (MoveIntent {
                forward: false,
                back: false,
                left: false,
                right: false,
                up: false,
                down: false,
                boost: false,
            }),
    {
        MoveIntent {
            forward: false,
            back: false,
            left: false,
            right: false,
            up: false,
            down: false,
            boost: false,
        }
    }

    /// A key press (`pressed`) or release of `key`. Auto-repeated presses
    /// change nothing; otherwise the key's flag follows the key.
    pub fn handle_key(&mut self, key: CameraKey, pressed: bool, repeat: bool)
        ensures
            repeat ==> *final(self) == *old(self),
            !repeat ==> *final(self) == old(self).with_flag(key, pressed),
    {
        if repeat {
            return;
        }
        match key {
            CameraKey::Forward => self.forward = pressed,
            CameraKey::Back => self.back = pressed,
            CameraKey::Left => self.left = pressed,
            CameraKey::Right => self.right = pressed,
            CameraKey::Up => self.up = pressed,
            CameraKey::Down => self.down = pressed,
            CameraKey::Boost => self.boost = pressed,
        }
    }

    /// The net step along the ground-forward, right and world-up axes.
    /// Opposite keys held together cancel.
    pub fn axes(&self) -> (r: (i8, i8, i8))
        ensures
            r == self.spec_axes(),
    {
        (net_of(self.forward, self.back), net_of(self.right, self.left), net_of(self.up, self.down))
    }

    /// Whether any axis has a net step.
    pub fn is_moving(&self) -> (r: bool)
        ensures
            r == (self.spec_axes() != (0i8, 0i8, 0i8)),
    {
        let (f, r, u) = self.axes();
        f != 0 || r != 0 || u != 0
    }

    /// The factor the base speed is multiplied by: 5 while boosting, else 1.
    pub fn speed_factor(&self) -> (r: u32)
        ensures
            r == if self.boost { BOOST_FACTOR } else { 1 },
    {
        if self.boost {
            BOOST_FACTOR
        } else {
            1
        }
    }
}

fn net_of(pos: bool, neg: bool) -> (r: i8)
    ensures
        r == net(pos, neg),
{
    if pos && !neg {
        1
    } else if neg && !pos {
        -1
    } else {
        0
    }
}

/// Only the edge of a key matters: pressing a key twice in a row, or holding
/// it while auto-repeat fires, leaves the same intent as pressing it once; the
/// same holds of releases.
pub proof fn lemma_key_edges_idempotent(i: MoveIntent, key: CameraKey, held: bool)
    ensures
        i.with_flag(key, held).with_flag(key, held) == i.with_flag(key, held),
        i.with_flag(key, held).flag(key) == held,
{
}

/// Every axis step lies in {-1, 0, 1}, so no combination of held keys moves
/// further along one axis than a single key does.
pub proof fn lemma_axes_unit(i: MoveIntent)
    ensures
        -1 <= i.spec_axes().0 <= 1,
        -1 <= i.spec_axes().1 <= 1,
        -1 <= i.spec_axes().2 <= 1,
{
}

} // verus!
