use vstd::prelude::*;

verus! {

/// One full turn, in millionths of a degree.
pub const FULL_TURN: u64 = 360_000_000;

/// Angular rate of the model's spin: 90 degrees per second, which is 90
/// millionths of a degree per microsecond.
pub const DEGREES_PER_SECOND: u64 = 90;

/// The model's rotation before the first frame: a quarter turn.
pub const INITIAL_ROTATION: u64 = 90_000_000;

/// Rotation `a` followed by rotation `b` about the same axis, both in
/// millionths of a degree, reduced to one turn.
pub open spec fn compose(a: nat, b: nat) -> nat {
    (a + b) % (FULL_TURN as nat)
}

/// The rotation reached from `angle` after `delta_micros` microseconds of
/// spin at the fixed rate.
pub open spec fn advanced(angle: nat, delta_micros: nat) -> nat {
    compose(angle, DEGREES_PER_SECOND as nat * delta_micros)
}

/// The accumulated rotation of the model about the view's up axis, kept as
/// an exact angle in millionths of a degree, below one full turn.
pub struct Rotation {
    microdegrees: u64,
}

impl View for Rotation {
    type V = nat;

    closed spec fn view(&self) -> nat {
        self.microdegrees as nat
    }
}

impl Rotation {
    /// The starting rotation, a quarter turn.
    pub fn new() -> (r: Rotation)
        ensures
            r@ == INITIAL_ROTATION as nat,
    {
        Rotation { microdegrees: INITIAL_ROTATION }
    }

    /// Composes the fixed angular increment, scaled by the elapsed time, into
    /// the accumulated rotation.
    pub fn advance(&mut self, delta_micros: u32)
        requires
            old(self)@ < FULL_TURN,
        ensures
            final(self)@ == advanced(old(self)@, delta_micros as nat),
            final(self)@ < FULL_TURN,
    {
        let step: u64 = DEGREES_PER_SECOND * (delta_micros as u64);
        self.microdegrees = (self.microdegrees + step) % FULL_TURN;
    }

    /// The angle in millionths of a degree.
    pub fn microdegrees(&self) -> (r: u64)
        ensures
            r as nat == self@,
    {
        self.microdegrees
    }
}

/// Spinning for `a` and then for `b` microseconds reaches the rotation that
/// spinning for `a + b` microseconds does.
pub proof fn lemma_advance_additive(angle: nat, a: nat, b: nat)
    ensures
        advanced(advanced(angle, a), b) == advanced(angle, a + b),
{
    let t = FULL_TURN as int;
    let r = DEGREES_PER_SECOND as int;
    let x: int = angle + r * a;
    let y: int = r * b;
    assert(r * (a + b) == x - angle + y) by (nonlinear_arith)
        requires x == angle + r * a, y == r * b;
    vstd::arithmetic::div_mod::lemma_add_mod_noop(x, y, t);
    vstd::arithmetic::div_mod::lemma_add_mod_noop(x % t, y, t);
    vstd::arithmetic::div_mod::lemma_mod_twice(x, t);
}

} // verus!
