//! Rendering a direction-classified grid as rows of text.

use vstd::prelude::*;
use vstd::string::StringExecFns;

use crate::aggregate::dir_at;
use crate::grid::Image;
use crate::pixel::Direction;

verus! {

/// The glyph a direction tag renders as. No edge renders as two spaces,
/// which compensates for the aspect ratio of a monospace character cell.
pub open spec fn glyph(d: Direction) -> Seq<char> {
    match d {
        Direction::Vertical => "|"@,
        Direction::Backward => "\\"@,
        Direction::Horizontal => "_"@,
        Direction::Forward => "/"@,
        Direction::NoEdge => "  "@,
    }
}

/// The rendering of the first `x1` pixels of row `y`, left to right.
pub open spec fn row_text(img: Image, y: int, x1: int) -> Seq<char>
    decreases x1,
{
    if x1 <= 0 {
        Seq::empty()
    } else {
        row_text(img, y, x1 - 1) + glyph(dir_at(img, x1 - 1, y))
    }
}

impl Image {
    /// Renders the grid as text, top to bottom: one string per pixel
    /// row, each pixel contributing its direction tag's glyph.
    pub fn to_ascii(&self) -> (res: Vec<String>)
        requires
            self.wf(),
        ensures
            res@.len() == self.height,
            forall|y: int|
                0 <= y < self.height ==> (#[trigger] res@[y])@ == row_text(
                    *self,
                    y,
                    self.width as int,
                ),
    {
        let mut res: Vec<String> = Vec::new();
        for y in 0..self.height
            invariant
                self.wf(),
                res@.len() == y,
                forall|yy: int|
                    0 <= yy < y ==> (#[trigger] res@[yy])@ == row_text(
                        *self,
                        yy,
                        self.width as int,
                    ),
        {
            let mut row = String::new();
            for x in 0..self.width
                invariant
                    self.wf(),
                    y < self.height,
                    row@ == row_text(*self, y as int, x as int),
            {
                let d = self.pixels[y as usize][x as usize].pix_direction();
                match d {
                    Direction::Vertical => row.append("|"),
                    Direction::Backward => row.append("\\"),
                    Direction::Horizontal => row.append("_"),
                    Direction::Forward => row.append("/"),
                    Direction::NoEdge => row.append("  "),
                }
            }
            res.push(row);
        }
        res
    }
}

} // verus!
