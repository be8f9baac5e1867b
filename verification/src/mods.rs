use vstd::prelude::*;

verus! {

/// Bit of the autoplay modifier.
pub const AUTOPLAY: i32 = 0x0001;
/// Bit of the horizontal mirror modifier.
pub const FLIP_X: i32 = 0x0002;
/// Bit of the fade-out modifier.
pub const FADE_OUT: i32 = 0x0004;
/// Bit of the fade-in modifier.
pub const FADE_IN: i32 = 0x0008;
/// Bit of the nightcore modifier.
pub const NIGHTCORE: i32 = 0x0010;
/// Bit of the rainbow modifier.
pub const RAINBOW: i32 = 0x0020;
/// Bit of the no-shader modifier.
pub const NO_SHADER: i32 = 0x0040;
/// Bit of the "die on the first non-perfect" modifier.
pub const INSTANT_DEATH_AP: i32 = 0x0080;
/// Bit of the "die on the first combo break" modifier.
pub const INSTANT_DEATH_FC: i32 = 0x0100;
/// Bit of the ghost modifier: notes are drawn translucent.
pub const GHOST: i32 = 0x0200;
/// Bit of the vertical mirror modifier.
pub const FLIP_Y: i32 = 0x0400;
/// Bit of the modifier that scatters notes horizontally.
pub const RANDOM_X: i32 = 0x1000;
/// Bit of the old-television screen effect.
pub const FX_TV: i32 = 0x2000;
/// Bit of the scan-line screen effect.
pub const FX_SCANLINE: i32 = 0x4000;
/// Bit of the glitch screen effect.
pub const FX_GLITCH: i32 = 0x8000;
/// The modifiers under which a play is not ranked: autoplay and no-shader.
pub const UNRATED: i32 = 0x0041;

/// Gameplay modifiers, stored as a set of bit flags.
#[derive(Clone, Copy, Debug, PartialEq, Eq, Structural)]
pub struct Mods {
    pub bits: i32,
}

/// Whether every bit of `flag` is set in `bits`.
pub open spec fn bits_contain(bits: i32, flag: i32) -> bool {
    bits & flag == flag
}

/// The bits that must be cleared when `flag` is switched on: mutually
/// exclusive modifiers.
pub open spec fn conflict_mask(flag: i32) -> i32 {
    if flag == FADE_IN {
        FADE_OUT
    } else if flag == FADE_OUT {
        FADE_IN
    } else if flag == INSTANT_DEATH_AP {
        INSTANT_DEATH_FC
    } else if flag == INSTANT_DEATH_FC {
        INSTANT_DEATH_AP
    } else if flag == FX_TV {
        0xC000
    } else if flag == FX_SCANLINE {
        0xA000
    } else if flag == FX_GLITCH {
        0x6000
    } else {
        0
    }
}

/// The bits after toggling `flag`: a set flag is cleared; a clear flag is set
/// and the flags it conflicts with are cleared.
pub open spec fn toggled_bits(bits: i32, flag: i32) -> i32 {
    if bits_contain(bits, flag) {
        bits & !flag
    } else {
        (bits & !conflict_mask(flag)) | flag
    }
}

/// No two mutually exclusive modifiers are set together.
pub open spec fn conflict_free(bits: i32) -> bool {
    &&& !(bits & FADE_IN != 0 && bits & FADE_OUT != 0)
    &&& !(bits & INSTANT_DEATH_AP != 0 && bits & INSTANT_DEATH_FC != 0)
    &&& !(bits & FX_TV != 0 && bits & FX_SCANLINE != 0)
    &&& !(bits & FX_TV != 0 && bits & FX_GLITCH != 0)
    &&& !(bits & FX_SCANLINE != 0 && bits & FX_GLITCH != 0)
}

/// `flag` is one of the named single-bit modifiers.
pub open spec fn is_named_flag(flag: i32) -> bool {
    ||| flag == AUTOPLAY
    ||| flag == FLIP_X
    ||| flag == FADE_OUT
    ||| flag == FADE_IN
    ||| flag == NIGHTCORE
    ||| flag == RAINBOW
    ||| flag == NO_SHADER
    ||| flag == INSTANT_DEATH_AP
    ||| flag == INSTANT_DEATH_FC
    ||| flag == GHOST
    ||| flag == FLIP_Y
    ||| flag == RANDOM_X
    ||| flag == FX_TV
    ||| flag == FX_SCANLINE
    ||| flag == FX_GLITCH
}

impl Mods {
    /// The modifiers with exactly the given bits, unknown bits included.
    pub fn from_bits_retain(bits: i32) -> (res: Mods)
        ensures
            res.bits == bits,
    {
        Mods { bits }
    }

    /// No modifier.
    pub fn empty() -> (res: Mods)
        ensures
            res.bits == 0,
    {
        Mods { bits: 0 }
    }

    /// The raw bits.
    pub fn bits(&self) -> (res: i32)
        ensures
            res == self.bits,
    {
        self.bits
    }

    /// Whether every modifier of `other` is set.
    pub fn contains(&self, other: Mods) -> (res: bool)
        ensures
            res == bits_contain(self.bits, other.bits),
    {
        self.bits & other.bits == other.bits
    }

    /// Whether some modifier of `other` is set.
    pub fn intersects(&self, other: Mods) -> (res: bool)
        ensures
            res == (self.bits & other.bits != 0),
    {
        self.bits & other.bits != 0
    }

    /// Sets every modifier of `other`.
    pub fn insert(&mut self, other: Mods)
        ensures
            final(self).bits == old(self).bits | other.bits,
    {
        self.bits = self.bits | other.bits;
    }

    /// Clears every modifier of `other`.
    pub fn remove(&mut self, other: Mods)
        ensures
            final(self).bits == old(self).bits & !other.bits,
    {
        self.bits = self.bits & !other.bits;
    }

    /// Sets or clears every modifier of `other`.
    pub fn set(&mut self, other: Mods, value: bool)
        ensures
            value ==> final(self).bits == old(self).bits | other.bits,
            !value ==> final(self).bits == old(self).bits & !other.bits,
    {
        if value {
            self.insert(other);
        } else {
            self.remove(other);
        }
    }

    /// The modifiers that cannot be active together with `flag`.
    pub fn conflicts(flag: Mods) -> (res: Vec<Mods>)
        ensures
            flag.bits == FADE_IN ==> res@ == seq![Mods { bits: FADE_OUT }],
            flag.bits == FADE_OUT ==> res@ == seq![Mods { bits: FADE_IN }],
            flag.bits == INSTANT_DEATH_AP ==> res@ == seq![Mods { bits: INSTANT_DEATH_FC }],
            flag.bits == INSTANT_DEATH_FC ==> res@ == seq![Mods { bits: INSTANT_DEATH_AP }],
            flag.bits == FX_TV ==> res@ == seq![Mods { bits: FX_SCANLINE }, Mods { bits: FX_GLITCH }],
            flag.bits == FX_SCANLINE ==> res@ == seq![Mods { bits: FX_TV }, Mods { bits: FX_GLITCH }],
            flag.bits == FX_GLITCH ==> res@ == seq![Mods { bits: FX_TV }, Mods { bits: FX_SCANLINE }],
            conflict_mask(flag.bits) == 0 ==> res@.len() == 0,
    {
        if flag.bits == FADE_IN {
            vec![Mods { bits: FADE_OUT }]
        } else if flag.bits == FADE_OUT {
            vec![Mods { bits: FADE_IN }]
        } else if flag.bits == INSTANT_DEATH_AP {
            vec![Mods { bits: INSTANT_DEATH_FC }]
        } else if flag.bits == INSTANT_DEATH_FC {
            vec![Mods { bits: INSTANT_DEATH_AP }]
        } else if flag.bits == FX_TV {
            vec![Mods { bits: FX_SCANLINE }, Mods { bits: FX_GLITCH }]
        } else if flag.bits == FX_SCANLINE {
            vec![Mods { bits: FX_TV }, Mods { bits: FX_GLITCH }]
        } else if flag.bits == FX_GLITCH {
            vec![Mods { bits: FX_TV }, Mods { bits: FX_SCANLINE }]
        } else {
            proof {
                assert(conflict_mask(flag.bits) == 0);
            }
            Vec::new()
        }
    }

    /// Switches `flag` off when it is fully set; otherwise switches it on and
    /// clears the modifiers it conflicts with.
    pub fn toggle_mod(&mut self, flag: Mods)
        ensures
            final(self).bits == toggled_bits(old(self).bits, flag.bits),
    {
        if self.contains(flag) {
            self.remove(flag);
        } else {
            let conflicts = Self::conflicts(flag);
            let ghost start = self.bits;
            let mut i: usize = 0;
            while i < conflicts.len()
                invariant
                    i <= conflicts@.len(),
                    conflicts@.len() <= 2,
                    conflict_mask(flag.bits) == 0 ==> conflicts@.len() == 0,
                    flag.bits == FADE_IN ==> conflicts@ == seq![Mods { bits: FADE_OUT }],
                    flag.bits == FADE_OUT ==> conflicts@ == seq![Mods { bits: FADE_IN }],
                    flag.bits == INSTANT_DEATH_AP ==> conflicts@ == seq![Mods { bits: INSTANT_DEATH_FC }],
                    flag.bits == INSTANT_DEATH_FC ==> conflicts@ == seq![Mods { bits: INSTANT_DEATH_AP }],
                    flag.bits == FX_TV ==> conflicts@ == seq![Mods { bits: FX_SCANLINE }, Mods { bits: FX_GLITCH }],
                    flag.bits == FX_SCANLINE ==> conflicts@ == seq![Mods { bits: FX_TV }, Mods { bits: FX_GLITCH }],
                    flag.bits == FX_GLITCH ==> conflicts@ == seq![Mods { bits: FX_TV }, Mods { bits: FX_SCANLINE }],
                    i == 0 ==> self.bits == start,
                    i == 1 ==> self.bits == start & !conflicts@[0].bits,
                    i == 2 ==> self.bits == (start & !conflicts@[0].bits) & !conflicts@[1].bits,
                decreases conflicts@.len() - i,
            {
                let c = conflicts[i];
                self.remove(c);
                i = i + 1;
            }
            proof {
                lemma_clear_conflicts(start, flag.bits);
            }
            self.insert(flag);
        }
    }
}

/// Clearing a flag's conflicts one by one clears its conflict mask.
proof fn lemma_clear_conflicts(b: i32, f: i32)
    ensures
        f == FX_TV ==> (b & !0x4000i32) & !0x8000i32 == b & !conflict_mask(f),
        f == FX_SCANLINE ==> (b & !0x2000i32) & !0x8000i32 == b & !conflict_mask(f),
        f == FX_GLITCH ==> (b & !0x2000i32) & !0x4000i32 == b & !conflict_mask(f),
        conflict_mask(f) == 0 ==> b == b & !conflict_mask(f),
{
    assert((b & !0x4000i32) & !0x8000i32 == b & !0xC000i32) by (bit_vector);
    assert((b & !0x2000i32) & !0x8000i32 == b & !0xA000i32) by (bit_vector);
    assert((b & !0x2000i32) & !0x4000i32 == b & !0x6000i32) by (bit_vector);
    assert(b == b & !0i32) by (bit_vector);
}

/// Toggling a named modifier never leaves two mutually exclusive modifiers
/// set together when none were before.
pub proof fn law_toggle_keeps_exclusive(m: Mods, flag: Mods)
    requires
        conflict_free(m.bits),
        is_named_flag(flag.bits),
    ensures
        conflict_free(toggled_bits(m.bits, flag.bits)),
{
    let b = m.bits;
    let f = flag.bits;
    let mask = conflict_mask(f);
    assert(
        (
            (f == 0x0001i32 && mask == 0i32) || (f == 0x0002i32 && mask == 0i32) || (f == 0x0004i32
                && mask == 0x0008i32) || (f == 0x0008i32 && mask == 0x0004i32) || (f == 0x0010i32
                && mask == 0i32) || (f == 0x0020i32 && mask == 0i32) || (f == 0x0040i32 && mask
                == 0i32) || (f == 0x0080i32 && mask == 0x0100i32) || (f == 0x0100i32 && mask
                == 0x0080i32) || (f == 0x0200i32 && mask == 0i32) || (f == 0x0400i32 && mask
                == 0i32) || (f == 0x1000i32 && mask == 0i32) || (f == 0x2000i32 && mask == 0xC000i32) || (f == 0x4000i32 && mask == 0xA000i32) || (f
                == 0x8000i32 && mask == 0x6000i32)
        ) && !(b & 0x0008i32 != 0 && b & 0x0004i32 != 0) && !(b & 0x0080i32 != 0 && b & 0x0100i32
            != 0) && !(b & 0x2000i32 != 0 && b & 0x4000i32 != 0) && !(b & 0x2000i32 != 0 && b
            & 0x8000i32 != 0) && !(b & 0x4000i32 != 0 && b & 0x8000i32 != 0) ==> {
            let t = if b & f == f {
                b & !f
            } else {
                (b & !mask) | f
            };
            &&& !(t & 0x0008i32 != 0 && t & 0x0004i32 != 0)
            &&& !(t & 0x0080i32 != 0 && t & 0x0100i32 != 0)
            &&& !(t & 0x2000i32 != 0 && t & 0x4000i32 != 0)
            &&& !(t & 0x2000i32 != 0 && t & 0x8000i32 != 0)
            &&& !(t & 0x4000i32 != 0 && t & 0x8000i32 != 0)
        }
    ) by (bit_vector);
}

/// Toggling a modifier twice gives back the modifiers one started from,
/// provided the modifier was fully set or fully clear and none of the
/// modifiers it conflicts with was set.
pub proof fn law_toggle_twice_restores(m: Mods, flag: Mods)
    requires
        bits_contain(m.bits, flag.bits) || m.bits & flag.bits == 0,
        m.bits & conflict_mask(flag.bits) == 0,
        flag.bits & conflict_mask(flag.bits) == 0,
    ensures
        toggled_bits(toggled_bits(m.bits, flag.bits), flag.bits) == m.bits,
{
    let b = m.bits;
    let f = flag.bits;
    let mask = conflict_mask(f);
    assert(
        ((b & f == f) || (b & f == 0)) && b & mask == 0 && f & mask == 0 ==> {
            let t = if b & f == f {
                b & !f
            } else {
                (b & !mask) | f
            };
            let u = if t & f == f {
                t & !f
            } else {
                (t & !mask) | f
            };
            u == b
        }
    ) by (bit_vector);
}

} // verus!
