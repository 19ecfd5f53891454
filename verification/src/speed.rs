//! The playback speeds and the order in which the speed button steps through them.
use vstd::prelude::*;

verus! {

/// The playback speeds offered, in the order the speed button steps
/// through them: half, normal, double and quadruple speed.
#[derive(Clone, Copy, Debug, PartialEq, Eq, Structural)]
pub enum PlaybackSpeed {
    Half,
    Normal,
    Double,
    Quadruple,
}

/// The number of playback speeds.
pub const SPEED_COUNT: usize = 4;

impl PlaybackSpeed {
    /// The position of this speed in the cycle `[0.5, 1, 2, 4]`.
    pub open spec fn cycle_position(self) -> int {
        match self {
            PlaybackSpeed::Half => 0,
            PlaybackSpeed::Normal => 1,
            PlaybackSpeed::Double => 2,
            PlaybackSpeed::Quadruple => 3,
        }
    }

    /// The speed at position `i` of the cycle, for `0 <= i < 4`.
    pub open spec fn at_position(i: int) -> PlaybackSpeed {
        if i == 0 {
            PlaybackSpeed::Half
        } else if i == 1 {
            PlaybackSpeed::Normal
        } else if i == 2 {
            PlaybackSpeed::Double
        } else {
            PlaybackSpeed::Quadruple
        }
    }

    /// The speed after this one: the next position of the cycle, wrapping
    /// round from the last to the first.
    pub open spec fn spec_next(self) -> PlaybackSpeed {
        Self::at_position((self.cycle_position() + 1) % (SPEED_COUNT as int))
    }

    /// The speed as the fraction `numerator / denominator`.
    pub open spec fn spec_ratio(self) -> (u32, u32) {
        match self {
            PlaybackSpeed::Half => (1, 2),
            PlaybackSpeed::Normal => (1, 1),
            PlaybackSpeed::Double => (2, 1),
            PlaybackSpeed::Quadruple => (4, 1),
        }
    }

    /// The label shown on the speed button: the speed followed by `x`.
    pub open spec fn spec_label(self) -> Seq<char> {
        match self {
            PlaybackSpeed::Half => seq!['0', '.', '5', 'x'],
            PlaybackSpeed::Normal => seq!['1', 'x'],
            PlaybackSpeed::Double => seq!['2', 'x'],
            PlaybackSpeed::Quadruple => seq!['4', 'x'],
        }
    }

    /// The position of this speed in the cycle.
    pub fn position(&self) -> (i: usize)
        ensures
            i == self.cycle_position(),
            i < SPEED_COUNT,
    {
        match self {
            PlaybackSpeed::Half => 0,
            PlaybackSpeed::Normal => 1,
            PlaybackSpeed::Double => 2,
            PlaybackSpeed::Quadruple => 3,
        }
    }

    /// The speed at position `i` of the cycle.
    pub fn from_position(i: usize) -> (speed: PlaybackSpeed)
        requires
            i < SPEED_COUNT,
        ensures
            speed == Self::at_position(i as int),
            speed.cycle_position() == i,
    {
        if i == 0 {
            PlaybackSpeed::Half
        } else if i == 1 {
            PlaybackSpeed::Normal
        } else if i == 2 {
            PlaybackSpeed::Double
        } else {
            PlaybackSpeed::Quadruple
        }
    }

    /// The speed the speed button moves to from this one.
    pub fn next(&self) -> (speed: PlaybackSpeed)
        ensures
            speed == self.spec_next(),
    {
        Self::from_position((self.position() + 1) % SPEED_COUNT)
    }

    /// The speed as a fraction `(numerator, denominator)`.
    pub fn ratio(&self) -> (r: (u32, u32))
        ensures
            r == self.spec_ratio(),
    {
        match self {
            PlaybackSpeed::Half => (1, 2),
            PlaybackSpeed::Normal => (1, 1),
            PlaybackSpeed::Double => (2, 1),
            PlaybackSpeed::Quadruple => (4, 1),
        }
    }

    /// The text of the speed button.
    pub fn label(&self) -> (text: &'static str)
        ensures
            text@ == self.spec_label(),
    {
        match self {
            PlaybackSpeed::Half => {
                proof {
                    reveal_strlit("0.5x");
                }
                "0.5x"
            },
            PlaybackSpeed::Normal => {
                proof {
                    reveal_strlit("1x");
                }
                "1x"
            },
            PlaybackSpeed::Double => {
                proof {
                    reveal_strlit("2x");
                }
                "2x"
            },
            PlaybackSpeed::Quadruple => {
                proof {
                    reveal_strlit("4x");
                }
                "4x"
            },
        }
    }
}

/// Stepping through the speeds `n` times moves `n` places along the cycle.
pub open spec fn speed_after_steps(speed: PlaybackSpeed, n: nat) -> PlaybackSpeed
    decreases n,
{
    if n == 0 {
        speed
    } else {
        speed_after_steps(speed, (n - 1) as nat).spec_next()
    }
}

/// Pressing the speed button `n` times lands on the speed `n` places further
/// along the cycle, counted modulo the number of speeds.
pub proof fn lemma_speed_steps(speed: PlaybackSpeed, n: nat)
    ensures
        speed_after_steps(speed, n).cycle_position() == (speed.cycle_position() + n) % (SPEED_COUNT as int),
    decreases n,
{
    if n > 0 {
        lemma_speed_steps(speed, (n - 1) as nat);
    }
}

/// Four presses of the speed button bring the speed back to where it was.
pub proof fn lemma_speed_cycle(speed: PlaybackSpeed)
    ensures
        speed_after_steps(speed, SPEED_COUNT as nat) == speed,
{
    lemma_speed_steps(speed, SPEED_COUNT as nat);
}

/// Every speed is reached from every other by pressing the speed button
/// fewer than four times.
pub proof fn lemma_speed_cycle_reaches_all(from: PlaybackSpeed, to: PlaybackSpeed)
    ensures
        exists|n: nat| n < SPEED_COUNT && #[trigger] speed_after_steps(from, n) == to,
{
    let n: nat = ((to.cycle_position() - from.cycle_position() + 4) % 4) as nat;
    lemma_speed_steps(from, n);
    assert(speed_after_steps(from, n) == to);
}

/// The speed button steps 0.5x, 1x, 2x, 4x and back to 0.5x.
pub proof fn lemma_speed_order()
    ensures
        PlaybackSpeed::Half.spec_next() == PlaybackSpeed::Normal,
        PlaybackSpeed::Normal.spec_next() == PlaybackSpeed::Double,
        PlaybackSpeed::Double.spec_next() == PlaybackSpeed::Quadruple,
        PlaybackSpeed::Quadruple.spec_next() == PlaybackSpeed::Half,
        PlaybackSpeed::Half.spec_ratio() == (1u32, 2u32),
        PlaybackSpeed::Normal.spec_ratio() == (1u32, 1u32),
        PlaybackSpeed::Double.spec_ratio() == (2u32, 1u32),
        PlaybackSpeed::Quadruple.spec_ratio() == (4u32, 1u32),
{
}

/// The speed at position `i` of the cycle is `2^i / 2` times normal, and
/// each position holds a different speed.
pub proof fn lemma_speed_ratio(speed: PlaybackSpeed, other: PlaybackSpeed)
    ensures
        speed.spec_ratio().1 > 0,
        speed.spec_ratio().0 * 2 == speed.spec_ratio().1 * crate::window::pow2(
            speed.cycle_position() as nat,
        ),
        0 <= speed.cycle_position() < SPEED_COUNT,
        speed.cycle_position() == other.cycle_position() ==> speed == other,
        PlaybackSpeed::Normal.spec_ratio() == (1u32, 1u32),
{
    reveal_with_fuel(crate::window::pow2, 4);
}

/// The button label is the speed written in decimal, followed by `x`: the
/// one digit of a whole speed, or `0.5` for half speed.
pub proof fn lemma_speed_label(speed: PlaybackSpeed)
    ensures
        speed.spec_ratio().1 == 1 ==> speed.spec_label() == seq![
            (48 + speed.spec_ratio().0) as char,
            'x',
        ],
        speed.spec_ratio().1 == 2 ==> speed.spec_ratio().0 == 1 && speed.spec_label() == seq![
            '0',
            '.',
            '5',
            'x',
        ],
        speed.spec_ratio().1 == 1 || speed.spec_ratio().1 == 2,
{
}

} // verus!
