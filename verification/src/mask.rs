//! The picture unit's mask register: eight control bits over one byte,
//! with named accessors. Only the register itself is modelled here; the
//! rendering it controls is outside this crate.
use vstd::prelude::*;

verus! {

pub const GREYSCALE: u8 = 0b0000_0001;

pub const LEFTMOST_8PXL_BACKGROUND: u8 = 0b0000_0010;

pub const LEFTMOST_8PXL_SPRITE: u8 = 0b0000_0100;

pub const SHOW_BACKGROUND: u8 = 0b0000_1000;

pub const SHOW_SPRITES: u8 = 0b0001_0000;

pub const EMPHASISE_RED: u8 = 0b0010_0000;

pub const EMPHASISE_GREEN: u8 = 0b0100_0000;

pub const EMPHASISE_BLUE: u8 = 0b1000_0000;

#[derive(Clone, Copy, PartialEq, Eq, Structural, Debug)]
pub enum Colour {
    Red,
    Green,
    Blue,
}

#[derive(Clone, Copy, PartialEq, Eq, Structural, Debug)]
pub struct MaskRegister {
    pub bits: u8,
}

/// The colour emphasis list for mask bits `b`: red, then blue, then
/// green, each present iff its bit is set.
pub open spec fn emphasise_spec(b: u8) -> Seq<Colour> {
    let reds: Seq<Colour> = if b & EMPHASISE_RED != 0 { seq![Colour::Red] } else { Seq::empty() };
    let blues: Seq<Colour> = if b & EMPHASISE_BLUE != 0 { seq![Colour::Blue] } else {
        Seq::empty()
    };
    let greens: Seq<Colour> = if b & EMPHASISE_GREEN != 0 { seq![Colour::Green] } else {
        Seq::empty()
    };
    reds + blues + greens
}

impl MaskRegister {
    /// A mask register with every bit clear.
    pub fn new() -> (r: MaskRegister)
        ensures
            r.bits == 0,
    {
        MaskRegister { bits: 0 }
    }

    pub fn is_grayscale(&self) -> (r: bool)
        ensures
            r == (self.bits & GREYSCALE != 0),
    {
        self.bits & GREYSCALE != 0
    }

    pub fn leftmost_8pxl_background(&self) -> (r: bool)
        ensures
            r == (self.bits & LEFTMOST_8PXL_BACKGROUND != 0),
    {
        self.bits & LEFTMOST_8PXL_BACKGROUND != 0
    }

    pub fn leftmost_8pxl_sprite(&self) -> (r: bool)
        ensures
            r == (self.bits & LEFTMOST_8PXL_SPRITE != 0),
    {
        self.bits & LEFTMOST_8PXL_SPRITE != 0
    }

    pub fn show_background(&self) -> (r: bool)
        ensures
            r == (self.bits & SHOW_BACKGROUND != 0),
    {
        self.bits & SHOW_BACKGROUND != 0
    }

    pub fn show_sprites(&self) -> (r: bool)
        ensures
            r == (self.bits & SHOW_SPRITES != 0),
    {
        self.bits & SHOW_SPRITES != 0
    }

    /// The emphasised colours, in the fixed order red, blue, green.
    pub fn emphasise(&self) -> (r: Vec<Colour>)
        ensures
            r@ == emphasise_spec(self.bits),
    {
        let mut result: Vec<Colour> = Vec::new();
        if self.bits & EMPHASISE_RED != 0 {
            result.push(Colour::Red);
        }
        if self.bits & EMPHASISE_BLUE != 0 {
            result.push(Colour::Blue);
        }
        if self.bits & EMPHASISE_GREEN != 0 {
            result.push(Colour::Green);
        }
        proof {
            assert(result@ =~= emphasise_spec(self.bits));
        }
        result
    }

    /// Replace the whole register with `data`.
    pub fn update(&mut self, data: u8)
        ensures
            final(self).bits == data,
    {
        self.bits = data;
    }
}

} // verus!
