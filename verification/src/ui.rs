//! Presentational data: grid positions, block glyphs, text colors, and the
//! plain draw commands the game hands to a display layer. The display itself
//! (a terminal) lives outside this crate; the game only produces these values.

use vstd::prelude::*;

verus! {

/// A point (x; y) on the map grid.
#[derive(Clone, Copy, PartialEq, Eq, Structural, Debug)]
pub struct Point(pub u16, pub u16);

/// The kind of glyph a cell displays.
#[derive(Clone, Copy, PartialEq, Eq, Structural, Debug)]
pub enum BlockTy {
    Air,
    Player,
    NPCFarmer,
    Wheat,
    GrowingWheat,
    Wall,
    WallDoor,
    Water,
    BridgeV,
    BridgeH,
}

/// A text color.
#[derive(Clone, Copy, PartialEq, Eq, Structural, Debug)]
pub enum Color {
    Normal,
    RareItem,
    SpecialItem,
    Magenta,
    GrowingWheat,
    Wheat,
    Water,
    Health,
    XP,
    Gold,
}

/// One cell to redraw: put the glyph `ty` at `pos` on the main fragment.
#[derive(Clone, Copy, PartialEq, Eq, Structural, Debug)]
pub struct CellDraw {
    pub pos: Point,
    pub ty: BlockTy,
}

/// One operation on a text fragment of the display.
#[derive(Clone, PartialEq, Eq, Debug)]
pub enum TextOp {
    /// Clear the whole fragment and move to its origin.
    Clear,
    /// Move to the start of the given line.
    SetLine(u16),
    /// Switch the text color.
    SetColor(Color),
    /// Write a string at the current position.
    Put(String),
    /// End the current line.
    Newline,
}

/// The mathematical value of a [`TextOp`]: the string carried by `Put` is
/// taken as its character sequence.
pub enum TextOpV {
    Clear,
    SetLine(u16),
    SetColor(Color),
    Put(Seq<char>),
    Newline,
}

impl View for TextOp {
    type V = TextOpV;

    open spec fn view(&self) -> TextOpV {
        match self {
            TextOp::Clear => TextOpV::Clear,
            TextOp::SetLine(n) => TextOpV::SetLine(*n),
            TextOp::SetColor(c) => TextOpV::SetColor(*c),
            TextOp::Put(s) => TextOpV::Put(s@),
            TextOp::Newline => TextOpV::Newline,
        }
    }
}

/// The values of a whole sequence of text operations.
pub open spec fn ops_view(ops: Seq<TextOp>) -> Seq<TextOpV> {
    ops.map(|_i: int, op: TextOp| op@)
}

/// Concatenating operation sequences concatenates their values.
pub proof fn lemma_ops_view_concat(a: Seq<TextOp>, b: Seq<TextOp>)
    ensures
        ops_view(a + b) == ops_view(a) + ops_view(b),
{
    assert(ops_view(a + b) =~= ops_view(a) + ops_view(b));
}

} // verus!
