//! Decorative particles in the sky; they never collide with anything.

use crate::dice;
use vstd::prelude::*;

verus! {

/// Number of rows at the top of the screen in which particles appear.
pub const SKY_ROWS: u16 = 10;

#[derive(Clone, Copy, Debug, PartialEq, Eq, Structural)]
pub struct Background {
    pub col: u16,
    pub row: u16,
    pub chr: char,
}

impl Background {
    /// A particle that may appear on a screen of the given size: in column
    /// `cols`, in one of the sky rows that the screen has, drawn as a star
    /// or a cross.
    pub open spec fn fits(self, cols: u16, rows: u16) -> bool {
        &&& self.col == cols
        &&& self.row < rows
        &&& self.row < SKY_ROWS
        &&& (self.chr == '*' || self.chr == '+')
    }

    /// The particle in column `col` and row `row`, drawn as `chr`.
    pub fn at(col: u16, row: u16, chr: char) -> (particle: Background)
        ensures
            particle == (Background { col, row, chr }),
    {
        Background { col, row, chr }
    }

    /// A particle at a random sky row, with a random glyph. There is one on
    /// every screen that has a row.
    pub fn new(cols: u16, rows: u16) -> (particle: Option<Background>)
        ensures
            particle is Some <==> rows > 0,
            particle matches Some(p) ==> p.fits(cols, rows),
    {
        if rows == 0 {
            return None;
        }
        let mut glyphs: Vec<char> = Vec::new();
        glyphs.push('*');
        glyphs.push('+');
        assert(glyphs@ =~= seq!['*', '+']);
        let sky: u16 = if rows < SKY_ROWS {
            rows
        } else {
            SKY_ROWS
        };
        match dice::pick(&glyphs) {
            Some(chr) => {
                let row: u32 = dice::roll(0, sky as u32);
                Some(Background::at(cols, row as u16, chr))
            },
            None => None,
        }
    }
}

} // verus!
