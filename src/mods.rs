use vstd::prelude::*;

verus! {

pub const NO_FAIL: u32 = 1;
pub const EASY: u32 = 2;
pub const TOUCH_DEVICE: u32 = 4;
pub const HIDDEN: u32 = 8;
pub const HARD_ROCK: u32 = 16;
pub const SUDDEN_DEATH: u32 = 32;
pub const DOUBLE_TIME: u32 = 64;
pub const RELAX: u32 = 128;
pub const HALF_TIME: u32 = 256;
pub const NIGHTCORE: u32 = 512;
pub const FLASHLIGHT: u32 = 1024;
pub const SPUN_OUT: u32 = 4096;
pub const AUTOPILOT: u32 = 8192;

/// A set of mods, as the bits of the legacy mod mask. Bits of mods that the
/// evaluator does not read are kept and ignored.
#[derive(Clone, Copy, Debug, PartialEq, Eq, Structural)]
pub struct GameMods {
    pub bits: u32,
}

pub open spec fn has_mod(m: GameMods, flag: u32) -> bool {
    m.bits & flag != 0
}

/// How the mods change the aim and speed ratings.
#[derive(Clone, Copy, Debug, PartialEq, Eq, Structural)]
pub enum RatingAdjustment {
    /// Ratings stay as they are.
    Unchanged,
    /// Relax: aim is scaled by 0.9 and speed is dropped to zero.
    Relax,
    /// Autopilot: speed is halved and aim is dropped to zero.
    Autopilot,
}

impl RatingAdjustment {
    pub open spec fn drops_speed(self) -> bool {
        self is Relax
    }

    pub open spec fn drops_aim(self) -> bool {
        self is Autopilot
    }

    /// Whether the speed rating becomes zero.
    pub fn zeroes_speed(&self) -> (r: bool)
        ensures
            r == self.drops_speed(),
    {
        match self {
            RatingAdjustment::Relax => true,
            _ => false,
        }
    }

    /// Whether the aim rating becomes zero.
    pub fn zeroes_aim(&self) -> (r: bool)
        ensures
            r == self.drops_aim(),
    {
        match self {
            RatingAdjustment::Autopilot => true,
            _ => false,
        }
    }
}

/// Relax takes precedence over autopilot.
pub open spec fn adjustment_of(m: GameMods) -> RatingAdjustment {
    if has_mod(m, RELAX) {
        RatingAdjustment::Relax
    } else if has_mod(m, AUTOPILOT) {
        RatingAdjustment::Autopilot
    } else {
        RatingAdjustment::Unchanged
    }
}

impl Default for GameMods {
    /// No mods.
    fn default() -> (r: GameMods)
        ensures
            r.bits == 0,
    {
        GameMods { bits: 0 }
    }
}

impl GameMods {
    pub fn from_bits(bits: u32) -> (r: GameMods)
        ensures
            r.bits == bits,
    {
        GameMods { bits }
    }

    pub fn nf(&self) -> (r: bool)
        ensures
            r == has_mod(*self, NO_FAIL),
    {
        self.bits & NO_FAIL != 0
    }

    pub fn ez(&self) -> (r: bool)
        ensures
            r == has_mod(*self, EASY),
    {
        self.bits & EASY != 0
    }

    pub fn td(&self) -> (r: bool)
        ensures
            r == has_mod(*self, TOUCH_DEVICE),
    {
        self.bits & TOUCH_DEVICE != 0
    }

    pub fn hd(&self) -> (r: bool)
        ensures
            r == has_mod(*self, HIDDEN),
    {
        self.bits & HIDDEN != 0
    }

    pub fn hr(&self) -> (r: bool)
        ensures
            r == has_mod(*self, HARD_ROCK),
    {
        self.bits & HARD_ROCK != 0
    }

    /// Double time, or nightcore, which implies it.
    pub fn dt(&self) -> (r: bool)
        ensures
            r == (has_mod(*self, DOUBLE_TIME) || has_mod(*self, NIGHTCORE)),
    {
        self.bits & DOUBLE_TIME != 0 || self.bits & NIGHTCORE != 0
    }

    pub fn ht(&self) -> (r: bool)
        ensures
            r == has_mod(*self, HALF_TIME),
    {
        self.bits & HALF_TIME != 0
    }

    pub fn rx(&self) -> (r: bool)
        ensures
            r == has_mod(*self, RELAX),
    {
        self.bits & RELAX != 0
    }

    pub fn fl(&self) -> (r: bool)
        ensures
            r == has_mod(*self, FLASHLIGHT),
    {
        self.bits & FLASHLIGHT != 0
    }

    pub fn so(&self) -> (r: bool)
        ensures
            r == has_mod(*self, SPUN_OUT),
    {
        self.bits & SPUN_OUT != 0
    }

    pub fn ap(&self) -> (r: bool)
        ensures
            r == has_mod(*self, AUTOPILOT),
    {
        self.bits & AUTOPILOT != 0
    }

    /// How these mods change the aim and speed ratings.
    pub fn rating_adjustment(&self) -> (r: RatingAdjustment)
        ensures
            r == adjustment_of(*self),
    {
        if self.rx() {
            RatingAdjustment::Relax
        } else if self.ap() {
            RatingAdjustment::Autopilot
        } else {
            RatingAdjustment::Unchanged
        }
    }
}

/// With relax, the speed rating (and so the speed pp) is zero; with
/// autopilot and without relax, the aim rating (and so every aim pp) is zero.
pub proof fn lemma_relax_and_autopilot_drop_ratings(m: GameMods)
    ensures
        has_mod(m, RELAX) ==> adjustment_of(m).drops_speed() && !adjustment_of(m).drops_aim(),
        has_mod(m, AUTOPILOT) && !has_mod(m, RELAX) ==> adjustment_of(m).drops_aim()
            && !adjustment_of(m).drops_speed(),
        !has_mod(m, RELAX) && !has_mod(m, AUTOPILOT) ==> adjustment_of(m) == RatingAdjustment::Unchanged,
{
}

/// Bits of mods that the evaluator does not read change none of its mod
/// decisions.
pub proof fn lemma_unknown_bits_ignored(m: GameMods, extra: u32)
    requires
        extra & (NO_FAIL | EASY | TOUCH_DEVICE | HIDDEN | HARD_ROCK | DOUBLE_TIME | RELAX
            | HALF_TIME | NIGHTCORE | FLASHLIGHT | SPUN_OUT | AUTOPILOT) == 0,
    ensures
        ({
            let n = GameMods { bits: m.bits | extra };
            &&& has_mod(n, NO_FAIL) == has_mod(m, NO_FAIL)
            &&& has_mod(n, EASY) == has_mod(m, EASY)
            &&& has_mod(n, TOUCH_DEVICE) == has_mod(m, TOUCH_DEVICE)
            &&& has_mod(n, HIDDEN) == has_mod(m, HIDDEN)
            &&& has_mod(n, HARD_ROCK) == has_mod(m, HARD_ROCK)
            &&& has_mod(n, DOUBLE_TIME) == has_mod(m, DOUBLE_TIME)
            &&& has_mod(n, RELAX) == has_mod(m, RELAX)
            &&& has_mod(n, HALF_TIME) == has_mod(m, HALF_TIME)
            &&& has_mod(n, NIGHTCORE) == has_mod(m, NIGHTCORE)
            &&& has_mod(n, FLASHLIGHT) == has_mod(m, FLASHLIGHT)
            &&& has_mod(n, SPUN_OUT) == has_mod(m, SPUN_OUT)
            &&& has_mod(n, AUTOPILOT) == has_mod(m, AUTOPILOT)
            &&& adjustment_of(n) == adjustment_of(m)
        }),
{
    let b = m.bits;
    assert(NO_FAIL | EASY | TOUCH_DEVICE | HIDDEN | HARD_ROCK | DOUBLE_TIME | RELAX | HALF_TIME
        | NIGHTCORE | FLASHLIGHT | SPUN_OUT | AUTOPILOT == 0x37dfu32) by (bit_vector);
    assert({
        &&& (b | extra) & 1u32 == b & 1u32
        &&& (b | extra) & 2u32 == b & 2u32
        &&& (b | extra) & 4u32 == b & 4u32
        &&& (b | extra) & 8u32 == b & 8u32
        &&& (b | extra) & 16u32 == b & 16u32
        &&& (b | extra) & 64u32 == b & 64u32
        &&& (b | extra) & 128u32 == b & 128u32
        &&& (b | extra) & 256u32 == b & 256u32
        &&& (b | extra) & 512u32 == b & 512u32
        &&& (b | extra) & 1024u32 == b & 1024u32
        &&& (b | extra) & 4096u32 == b & 4096u32
        &&& (b | extra) & 8192u32 == b & 8192u32
    }) by (bit_vector)
        requires
            extra & 0x37dfu32 == 0,
    ;
}

} // verus!
