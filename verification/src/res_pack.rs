use vstd::prelude::*;
use vstd::string::*;

verus! {

/// Default tint of perfect hits, as ARGB.
pub const DEFAULT_PERFECT: u32 = 0xe1ffec9f;
/// Default tint of good hits, as ARGB.
pub const DEFAULT_GOOD: u32 = 0xebb4e1ff;

/// Default of the hit-effect tint switch.
pub fn default_tinted() -> (res: bool)
    ensures
        res,
{
    true
}

/// Default tint of perfect hits.
pub fn default_perfect() -> (res: u32)
    ensures
        res == DEFAULT_PERFECT,
{
    DEFAULT_PERFECT
}

/// Default tint of good hits.
pub fn default_good() -> (res: u32)
    ensures
        res == DEFAULT_GOOD,
{
    DEFAULT_GOOD
}

/// An 8-bit-per-channel colour.
#[derive(Clone, Copy, Debug, PartialEq, Eq, Structural)]
pub struct Rgba8 {
    pub r: u8,
    pub g: u8,
    pub b: u8,
    pub a: u8,
}

/// Why a resource pack's description was rejected.
#[derive(Clone, Copy, Debug, PartialEq, Eq, Structural)]
pub enum ResPackError {
    EmptyName,
    NameTooLong,
    DescriptionTooLong,
    InvalidHitFx,
    InvalidAtlas,
}

impl ResPackError {
    /// The message shown for the error.
    pub fn message(&self) -> (res: String)
        ensures
            *self == ResPackError::EmptyName ==> res@ == "empty name"@,
            *self == ResPackError::NameTooLong ==> res@ == "name too long"@,
            *self == ResPackError::DescriptionTooLong ==> res@ == "description too long"@,
            *self == ResPackError::InvalidHitFx ==> res@ == "Invalid hit_fx"@,
            *self == ResPackError::InvalidAtlas ==> res@ == "Invalid atlas"@,
    {
        match self {
            ResPackError::EmptyName => String::from_str("empty name"),
            ResPackError::NameTooLong => String::from_str("name too long"),
            ResPackError::DescriptionTooLong => String::from_str("description too long"),
            ResPackError::InvalidHitFx => String::from_str("Invalid hit_fx"),
            ResPackError::InvalidAtlas => String::from_str("Invalid atlas"),
        }
    }
}

/// A resource pack's description: names, hit-effect atlas layout, hold
/// atlas cuts, switches and tints. (Effect duration and scale are kept by the
/// caller.)
pub struct ResPackInfo {
    pub name: String,
    pub author: String,
    pub hit_fx: (u32, u32),
    pub hit_fx_rotate: bool,
    pub hide_particles: bool,
    pub hit_fx_tinted: bool,
    pub hold_atlas: (u16, u16),
    pub hold_atlas_mh: (u16, u16),
    pub hold_keep_head: bool,
    pub hold_repeat: bool,
    pub hold_compact: bool,
    pub color_perfect: u32,
    pub color_good: u32,
    pub description: String,
}

/// `a * b`, or `u32::MAX` when that overflows.
pub open spec fn sat_mul(a: u32, b: u32) -> int {
    if a * b > u32::MAX {
        u32::MAX as int
    } else {
        a * b
    }
}

/// The error a description is rejected with, checked in this order, or none.
pub open spec fn res_pack_check(name: Seq<char>, description: Seq<char>, hit_fx: (u32, u32)) -> Option<ResPackError> {
    if name.len() == 0 {
        Some(ResPackError::EmptyName)
    } else if vstd::utf8::encode_utf8(name).len() > 100 {
        Some(ResPackError::NameTooLong)
    } else if vstd::utf8::encode_utf8(description).len() > 1000 {
        Some(ResPackError::DescriptionTooLong)
    } else if !(1 <= sat_mul(hit_fx.0, hit_fx.1) <= 10240) {
        Some(ResPackError::InvalidHitFx)
    } else {
        None
    }
}

/// The colour of a 32-bit value: ARGB when it uses the top byte, else RGB
/// with full opacity.
pub open spec fn spec_color_guess_alpha(c: u32) -> Rgba8 {
    if c > 0xffffff {
        Rgba8 {
            a: (c / 0x1000000) as u8,
            r: ((c / 0x10000) % 0x100) as u8,
            g: ((c / 0x100) % 0x100) as u8,
            b: (c % 0x100) as u8,
        }
    } else {
        Rgba8 { a: 255, r: (c / 0x10000) as u8, g: ((c / 0x100) % 0x100) as u8, b: (c % 0x100) as u8 }
    }
}

/// The colour of a 32-bit value: ARGB when it uses the top byte, else RGB
/// with full opacity.
pub fn parse_color_guess_alpha(c: u32) -> (res: Rgba8)
    ensures
        res == spec_color_guess_alpha(c),
{
    if c > 0xffffff {
        Rgba8 { a: (c / 0x1000000) as u8, r: ((c / 0x10000) % 0x100) as u8, g: ((c / 0x100) % 0x100) as u8, b: (c % 0x100) as u8 }
    } else {
        Rgba8 { a: 255, r: (c / 0x10000) as u8, g: ((c / 0x100) % 0x100) as u8, b: (c % 0x100) as u8 }
    }
}

/// Opaque white.
pub open spec fn white() -> Rgba8 {
    Rgba8 { r: 255, g: 255, b: 255, a: 255 }
}

impl ResPackInfo {
    /// Checks the name (present, at most 100 bytes), the description (at most
    /// 1000 bytes) and the hit-effect atlas (between 1 and 10240 frames).
    pub fn verify(&self) -> (res: Result<(), ResPackError>)
        ensures
            match res_pack_check(self.name@, self.description@, self.hit_fx) {
                Some(e) => res == Err::<(), ResPackError>(e),
                None => res is Ok,
            },
    {
        let name = self.name.as_str();
        if name.unicode_len() == 0 {
            return Err(ResPackError::EmptyName);
        }
        if name.as_bytes().len() > 100 {
            return Err(ResPackError::NameTooLong);
        }
        if self.description.as_str().as_bytes().len() > 1000 {
            return Err(ResPackError::DescriptionTooLong);
        }
        let frames: u32 = match self.hit_fx.0.checked_mul(self.hit_fx.1) {
            Some(v) => v,
            None => u32::MAX,
        };
        if !(1 <= frames && frames <= 10240) {
            return Err(ResPackError::InvalidHitFx);
        }
        Ok(())
    }

    /// The tint of perfect hits.
    pub fn color_perfect(&self) -> (res: Rgba8)
        ensures
            res == spec_color_guess_alpha(self.color_perfect),
    {
        parse_color_guess_alpha(self.color_perfect)
    }

    /// The tint of good hits.
    pub fn color_good(&self) -> (res: Rgba8)
        ensures
            res == spec_color_guess_alpha(self.color_good),
    {
        parse_color_guess_alpha(self.color_good)
    }

    /// The colour of perfect hit effects: the perfect tint when effects are
    /// tinted, else white.
    pub fn fx_perfect(&self) -> (res: Rgba8)
        ensures
            res == (if self.hit_fx_tinted { spec_color_guess_alpha(self.color_perfect) } else { white() }),
    {
        if self.hit_fx_tinted {
            self.color_perfect()
        } else {
            Rgba8 { r: 255, g: 255, b: 255, a: 255 }
        }
    }

    /// The colour of good hit effects: the good tint when effects are tinted,
    /// else white.
    pub fn fx_good(&self) -> (res: Rgba8)
        ensures
            res == (if self.hit_fx_tinted { spec_color_guess_alpha(self.color_good) } else { white() }),
    {
        if self.hit_fx_tinted {
            self.color_good()
        } else {
            Rgba8 { r: 255, g: 255, b: 255, a: 255 }
        }
    }
}

/// Checks that the hold atlas cuts (rows taken by the tail and the head)
/// leave part of a hold texture `hold_height` rows high.
pub fn verify_hold_atlas(hold_atlas: (u16, u16), hold_height: u32) -> (res: Result<(), ResPackError>)
    ensures
        res is Ok <==> (if hold_atlas.0 + hold_atlas.1 > u16::MAX {
            u16::MAX as int
        } else {
            hold_atlas.0 + hold_atlas.1
        }) < hold_height,
        res is Err ==> res == Err::<(), ResPackError>(ResPackError::InvalidAtlas),
{
    if hold_atlas.0.saturating_add(hold_atlas.1) as u32 >= hold_height {
        return Err(ResPackError::InvalidAtlas);
    }
    Ok(())
}

/// The hold atlas cuts of a texture downscaled by `factor` (at least one).
pub fn downscaled_atlas(hold_atlas: (u16, u16), factor: u32) -> (res: (u16, u16))
    requires
        (if factor < 1 { 1u32 } else { factor }) as u16 != 0,
    ensures
        ({
            let f = (if factor < 1 { 1u32 } else { factor }) as u16;
            res == (hold_atlas.0 / f, hold_atlas.1 / f)
        }),
{
    let factor = if factor < 1 { 1 } else { factor };
    let f = factor as u16;
    (hold_atlas.0 / f, hold_atlas.1 / f)
}

/// The rows of an RGBA hold texture `width` x `height` between the tail cut
/// (`hold_atlas.0` rows at the top) and the head cut (`hold_atlas.1` rows at
/// the bottom), and their height.
pub fn hold_body_pixels(pixels: &Vec<u8>, width: u16, height: u16, hold_atlas: (u16, u16)) -> (res: (u16, Vec<u8>))
    requires
        pixels@.len() == width * height * 4,
        hold_atlas.0 + hold_atlas.1 <= height,
    ensures
        res.0 == height - hold_atlas.0 - hold_atlas.1,
        res.1@ == pixels@.subrange(
            hold_atlas.0 * width * 4,
            pixels@.len() - hold_atlas.1 * width * 4,
        ),
{
    let new_height = height - hold_atlas.0 - hold_atlas.1;
    let w = width as usize;
    proof {
        assert(hold_atlas.0 * width * 4 + hold_atlas.1 * width * 4 <= height * width * 4) by (nonlinear_arith)
            requires
                hold_atlas.0 + hold_atlas.1 <= height,
        ;
        assert(height * width * 4 == width * height * 4) by (nonlinear_arith);
    }
    let _len = pixels.len();
    let start = hold_atlas.0 as usize * w * 4;
    let end = pixels.len() - hold_atlas.1 as usize * w * 4;
    let mut out: Vec<u8> = Vec::new();
    let mut i: usize = start;
    while i < end
        invariant
            start <= i <= end,
            end <= pixels@.len(),
            out@ == pixels@.subrange(start as int, i as int),
        decreases end - i,
    {
        out.push(pixels[i]);
        i = i + 1;
    }
    (new_height, out)
}

/// The four note styles of a pack: normal and multi-hit highlight, each at
/// full and at low resolution.
pub struct StyleSet<T> {
    pub normal: T,
    pub mh: T,
    pub low: T,
    pub mh_low: T,
}

impl<T> StyleSet<T> {
    /// The style for a note that is (or is not) highlighted as simultaneous,
    /// drawn at low (or full) resolution.
    pub fn style_for(&self, mh: bool, low: bool) -> (res: &T)
        ensures
            mh && low ==> *res == self.mh_low,
            mh && !low ==> *res == self.mh,
            !mh && low ==> *res == self.low,
            !mh && !low ==> *res == self.normal,
    {
        if mh {
            if low {
                &self.mh_low
            } else {
                &self.mh
            }
        } else if low {
            &self.low
        } else {
            &self.normal
        }
    }
}

} // verus!
