//! The cells that a text UI hands to a backend, and what becomes of each.

use vstd::prelude::*;
use vstd::string::*;
use crate::colours::{Colour, ColourConverter, Modifier, Rgba};

verus! {

/// What a text UI wants shown at one position of the grid.
#[derive(Clone, Debug)]
pub struct Cell {
    /// The text of the cell. Only its first character is shown.
    pub symbol: String,
    pub fg: Colour,
    pub bg: Colour,
    pub modifier: Modifier,
    /// Set where the cell is not to be touched in this frame.
    pub skip: bool,
}

/// One write to the host's grid: a glyph and its two colours at a position.
#[derive(Clone, Copy, Debug, PartialEq, Eq, Structural)]
pub struct CellWrite {
    pub x: u16,
    pub y: u16,
    pub fg: Rgba,
    pub bg: Rgba,
    /// The glyph, as the host counts glyphs: a code point of sixteen bits.
    pub glyph: u16,
}

/// A cell together with the column and the row that it belongs to.
pub type Placed = (u16, u16, Cell);

impl Cell {
    /// The code point of the first character of the symbol, if it has one.
    pub open spec fn code_point(&self) -> Option<u32> {
        if self.symbol@.len() > 0 {
            Some(self.symbol@[0] as u32)
        } else {
            None
        }
    }

    /// Whether a backend can act on the cell: it is to be skipped, or its
    /// symbol starts with a character that the host has a glyph number for.
    pub open spec fn drawable(&self) -> bool {
        self.skip || (self.code_point() matches Some(c) && c <= u16::MAX)
    }

    /// Tests whether a backend can act on the cell.
    pub fn is_drawable(&self) -> (yes: bool)
        ensures
            yes == self.drawable(),
    {
        if self.skip {
            return true;
        }
        match first_char(self.symbol.as_str()) {
            Some(c) => (c as u32) <= 0xFFFF,
            None => false,
        }
    }
}

/// The first character of `symbol`, if it has one.
pub fn first_char(symbol: &str) -> (first: Option<char>)
    ensures
        symbol@.len() == 0 ==> first is None,
        symbol@.len() > 0 ==> first == Some(symbol@[0]),
{
    broadcast use {axiom_spec_iter, next_postcondition};

    let mut chars = symbol.chars();
    chars.next()
}

/// The write that a cell at column `x` and row `y` leads to under the policy
/// `colours`: none for a cell that is to be skipped, and else the cell's
/// first character, as the glyph of that code point, with its two colours
/// converted.
pub open spec fn write_of<C: ColourConverter>(colours: &C, x: u16, y: u16, cell: &Cell) -> Option<
    CellWrite,
> {
    if cell.skip {
        None
    } else {
        Some(
            CellWrite {
                x,
                y,
                fg: colours.fg_of(cell.fg, cell.modifier),
                bg: colours.bg_of(cell.bg, cell.modifier),
                glyph: cell.code_point()->0 as u16,
            },
        )
    }
}

/// The writes that a run of cells leads to, in the order of the cells.
pub open spec fn writes_of<C: ColourConverter>(colours: &C, content: Seq<Placed>) -> Seq<CellWrite>
    decreases content.len(),
{
    if content.len() == 0 {
        Seq::empty()
    } else {
        let before = writes_of(colours, content.drop_last());
        let (x, y, cell) = content.last();
        match write_of(colours, x, y, &cell) {
            Some(w) => before.push(w),
            None => before,
        }
    }
}

/// Whether a backend can act on every cell of `content`.
pub open spec fn all_drawable(content: Seq<Placed>) -> bool {
    forall|i: int| 0 <= i < content.len() ==> (#[trigger] content[i]).2.drawable()
}

/// Works out the write for one cell: converts its colours and takes the
/// glyph from its symbol, unless the cell is to be skipped.
pub fn cell_write<C: ColourConverter>(colours: &C, x: u16, y: u16, cell: &Cell) -> (w: Option<
    CellWrite,
>)
    requires
        cell.drawable(),
    ensures
        w == write_of(colours, x, y, cell),
        w is None <==> cell.skip,
{
    if cell.skip {
        return None;
    }
    let glyph = match first_char(cell.symbol.as_str()) {
        Some(c) => (c as u32) as u16,
        None => 0,
    };
    let fg = colours.convert_fg(cell.fg, cell.modifier);
    let bg = colours.convert_bg(cell.bg, cell.modifier);
    Some(CellWrite { x, y, fg, bg, glyph })
}

/// Taking one more cell into a run adds that cell's write, if it has one,
/// after the writes of the cells before it.
pub proof fn lemma_writes_step<C: ColourConverter>(colours: &C, content: Seq<Placed>, i: int)
    requires
        0 <= i < content.len(),
    ensures
        writes_of(colours, content.take(i + 1)) == match write_of(
            colours,
            content[i].0,
            content[i].1,
            &content[i].2,
        ) {
            Some(w) => writes_of(colours, content.take(i)).push(w),
            None => writes_of(colours, content.take(i)),
        },
{
    assert(content.take(i + 1).drop_last() =~= content.take(i));
    assert(content.take(i + 1).last() == content[i]);
}

/// The writes that the cells at the start of a run lead to are the first of
/// the writes that the whole run leads to.
pub proof fn lemma_writes_prefix<C: ColourConverter>(colours: &C, content: Seq<Placed>, i: int)
    requires
        0 <= i <= content.len(),
    ensures
        writes_of(colours, content.take(i)).len() <= writes_of(colours, content).len(),
        writes_of(colours, content.take(i)) == writes_of(colours, content).take(
            writes_of(colours, content.take(i)).len() as int,
        ),
    decreases content.len() - i,
{
    if i == content.len() {
        assert(content.take(i) =~= content);
        assert(writes_of(colours, content) =~= writes_of(colours, content).take(
            writes_of(colours, content).len() as int,
        ));
    } else {
        lemma_writes_step(colours, content, i);
        lemma_writes_prefix(colours, content, i + 1);
        let shorter = writes_of(colours, content.take(i));
        let longer = writes_of(colours, content.take(i + 1));
        let all = writes_of(colours, content);
        assert(shorter =~= longer.take(shorter.len() as int));
        assert(shorter =~= all.take(shorter.len() as int));
    }
}

/// A cell that is to be skipped adds no write to those of the cells before
/// it, wherever in a run it stands; a cell that is to be drawn adds its own
/// write, and that only.
pub proof fn lemma_writes_push<C: ColourConverter>(
    colours: &C,
    content: Seq<Placed>,
    x: u16,
    y: u16,
    cell: Cell,
)
    ensures
        cell.skip ==> writes_of(colours, content.push((x, y, cell))) == writes_of(colours, content),
        !cell.skip ==> writes_of(colours, content.push((x, y, cell))) == writes_of(
            colours,
            content,
        ).push(write_of(colours, x, y, &cell)->0),
{
    assert(content.push((x, y, cell)).drop_last() =~= content);
    assert(content.push((x, y, cell)).last() == (x, y, cell));
}

/// A run of cells leads to at most one write for each cell, and a run of
/// cells that are all to be skipped leads to none.
pub proof fn lemma_writes_bounded<C: ColourConverter>(colours: &C, content: Seq<Placed>)
    ensures
        writes_of(colours, content).len() <= content.len(),
        (forall|i: int| 0 <= i < content.len() ==> (#[trigger] content[i]).2.skip) ==> writes_of(
            colours,
            content,
        ).len() == 0,
    decreases content.len(),
{
    if content.len() > 0 {
        lemma_writes_bounded(colours, content.drop_last());
        if forall|i: int| 0 <= i < content.len() ==> (#[trigger] content[i]).2.skip {
            assert forall|i: int| 0 <= i < content.drop_last().len() implies (
            #[trigger] content.drop_last()[i]).2.skip by {
                assert(content.drop_last()[i] == content[i]);
            }
            assert(content.last() == content[content.len() - 1]);
        }
    }
}

} // verus!
