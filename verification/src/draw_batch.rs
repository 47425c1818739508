//! Backends that draw into a batch of the host's drawing commands.

use vstd::prelude::*;
use bracket_terminal::prelude::{BTerm, DrawBatch};
use object_pool::Reusable;
use crate::cell::{
    all_drawable,
    cell_write,
    lemma_writes_prefix,
    lemma_writes_step,
    write_of,
    writes_of,
    Cell,
    CellWrite,
    Placed,
};
use crate::colours::ColourConverter;
use crate::geometry::{Position, Size, WindowSize};
use crate::host::{
    batch_cls,
    batch_next_z,
    batch_ops,
    batch_set,
    host_char_size,
    host_pixel_size,
    host_pixels,
    set_ops,
    DrawOp,
};

verus! {

/// A backend that draws into a batch of drawing commands, borrowed from the
/// host's pool, which it is handed when it is made and keeps for as long as
/// it lives.
///
/// The calling code has to call [`Self::update()`] on each tick, before the
/// backend is drawn on, and has to submit the batch when the drawing is done.
/// In return
/// - the backend holds no borrow of the host's state, and
/// - one text UI terminal can be kept on one backend for all the ticks.
pub struct DrawBatchBackend<C> {
    colours: C,
    cursor_pos: Position,
    batch: Reusable<'static, DrawBatch>,
    size: Size,
    window_size: WindowSize,
}

/// What a [`DrawBatchBackend`] is to its callers.
pub struct BatchView<C> {
    /// The conversion policy.
    pub colours: C,
    /// The logical cursor.
    pub cursor: Position,
    /// The extent of the grid in cells, as of the last update.
    pub grid: Size,
    /// The extent of the window in cells and in pixels, as of the last update.
    pub window: WindowSize,
    /// The commands that the batch holds, oldest first.
    pub ops: Seq<DrawOp>,
    /// The number of commands that the batch has counted since it was
    /// borrowed. The host keeps the count in 32 bits.
    pub recorded: nat,
}

impl<C> BatchView<C> {
    /// The backend with its cursor put at `position`.
    pub open spec fn with_cursor(self, position: Position) -> Self {
        BatchView { cursor: position, ..self }
    }

    /// The backend after it was cleared: the batch holds one more command,
    /// a clear of the whole screen.
    pub open spec fn cleared(self) -> Self {
        BatchView {
            ops: self.ops.push(DrawOp::ClearScreen),
            recorded: self.recorded + 1,
            ..self
        }
    }

    /// The backend after it took note of a host whose grid has `columns` by
    /// `rows` cells and whose window has `width_px` by `height_px` pixels.
    /// The pixels are kept to their low sixteen bits a side.
    pub open spec fn resized(self, columns: u16, rows: u16, width_px: u32, height_px: u32) -> Self {
        BatchView {
            grid: Size { width: columns, height: rows },
            window: WindowSize {
                columns_rows: Size { width: columns, height: rows },
                pixels: Size::low_bits(width_px, height_px),
            },
            ..self
        }
    }

    /// The backend with the batch as a caller left it who had borrowed it:
    /// holding `ops`, with `recorded` commands counted.
    pub open spec fn with_batch(self, ops: Seq<DrawOp>, recorded: nat) -> Self {
        BatchView { ops, recorded, ..self }
    }
}

impl<C: ColourConverter> BatchView<C> {
    /// The backend after the cells of `content` were drawn on it: the batch
    /// holds one more command for each cell that is not skipped, in the order
    /// of the cells.
    pub open spec fn drawn(self, content: Seq<Placed>) -> Self {
        BatchView {
            ops: self.ops + set_ops(writes_of(&self.colours, content)),
            recorded: self.recorded + writes_of(&self.colours, content).len(),
            ..self
        }
    }

    /// Whether the batch's count has room for the commands that drawing
    /// `content` would record. A run that leads to no write needs none.
    pub open spec fn has_room_for(self, content: Seq<Placed>) -> bool {
        writes_of(&self.colours, content).len() == 0 || self.recorded + writes_of(
            &self.colours,
            content,
        ).len() <= u32::MAX
    }
}

impl<C> View for DrawBatchBackend<C> {
    type V = BatchView<C>;

    closed spec fn view(&self) -> BatchView<C> {
        BatchView {
            colours: self.colours,
            cursor: self.cursor_pos,
            grid: self.size,
            window: self.window_size,
            ops: batch_ops(self.batch),
            recorded: batch_next_z(self.batch),
        }
    }
}

impl<C> DrawBatchBackend<C> {
    /// A backend with the conversion policy `colours`, on the batch `batch`,
    /// which the caller has borrowed from the host's pool and which the
    /// backend keeps for as long as it lives. The backend starts with the
    /// batch as it is handed in. Its cursor is at the origin and, until the
    /// first update, its grid and its window cover nothing.
    pub fn new(colours: C, batch: Reusable<'static, DrawBatch>) -> (backend: Self)
        ensures
            backend@.colours == colours,
            backend@.cursor == Position::origin(),
            backend@.grid == Size::zero(),
            backend@.window == WindowSize::zero(),
            backend@.ops == batch_ops(batch),
            backend@.recorded == batch_next_z(batch),
    {
        DrawBatchBackend {
            colours,
            cursor_pos: Position { x: 0, y: 0 },
            batch,
            size: Size { width: 0, height: 0 },
            window_size: WindowSize {
                columns_rows: Size { width: 0, height: 0 },
                pixels: Size { width: 0, height: 0 },
            },
        }
    }

    /// The batch, to look at.
    pub fn batch(&self) -> (batch: &Reusable<'static, DrawBatch>)
        ensures
            batch_ops(*batch) == self@.ops,
            batch_next_z(*batch) == self@.recorded,
    {
        &self.batch
    }

    /// The batch, to submit it or to record further commands in it. The
    /// backend goes on with the batch as the caller leaves it.
    pub fn batch_mut(&mut self) -> (batch: &mut Reusable<'static, DrawBatch>)
        ensures
            batch_ops(*batch) == old(self)@.ops,
            batch_next_z(*batch) == old(self)@.recorded,
            final(self)@ == old(self)@.with_batch(
                batch_ops(*final(batch)),
                batch_next_z(*final(batch)),
            ),
    {
        &mut self.batch
    }

    /// Takes note of the extent of a host whose grid has `columns` by `rows`
    /// cells and whose window has `width_px` by `height_px` pixels.
    pub fn resize(&mut self, columns: u16, rows: u16, width_px: u32, height_px: u32)
        ensures
            final(self)@ == old(self)@.resized(columns, rows, width_px, height_px),
    {
        self.size = Size::new(columns, rows);
        self.window_size = WindowSize {
            columns_rows: Size::new(columns, rows),
            pixels: Size::truncated(width_px, height_px),
        };
    }

    /// Takes note of the extent of a host as the host reports it, if the
    /// backend can: it counts columns and rows in sixteen bits. A grid of at
    /// most 65535 columns and at most 65535 rows is taken note of as by
    /// [`Self::resize`], and the result is `true`. For a larger grid the
    /// backend is left as it was, and the result is `false`.
    pub fn try_resize(
        &mut self,
        columns: u32,
        rows: u32,
        width_px: u32,
        height_px: u32,
    ) -> (fits: bool)
        ensures
            fits == (columns <= u16::MAX && rows <= u16::MAX),
            fits ==> final(self)@ == old(self)@.resized(
                columns as u16,
                rows as u16,
                width_px,
                height_px,
            ),
            !fits ==> final(self)@ == old(self)@,
    {
        if columns <= 0xFFFF && rows <= 0xFFFF {
            self.resize(columns as u16, rows as u16, width_px, height_px);
            true
        } else {
            false
        }
    }

    /// Brings the backend's idea of the grid and the window up to date with
    /// the host: asks the display context for the extent of its grid and of
    /// its window, and hands both to [`Self::try_resize`]. To be called on
    /// each tick before the backend is used.
    ///
    /// The result is `false`, with the backend left as it was, where the
    /// context has no console to ask, or has one whose grid is too large for
    /// the backend as [`Self::try_resize`] counts. Where the result is `true`
    /// the backend has taken note of the grid that the console reported and
    /// of the pixels that the context holds.
    pub fn update(&mut self, bterm: &BTerm) -> (updated: bool)
        ensures
            updated ==> final(self)@ == old(self)@.resized(
                final(self)@.grid.width,
                final(self)@.grid.height,
                host_pixels(*bterm).0,
                host_pixels(*bterm).1,
            ),
            !updated ==> final(self)@ == old(self)@,
    {
        let (width_px, height_px) = host_pixel_size(bterm);
        match host_char_size(bterm) {
            Some((columns, rows)) => self.try_resize(columns, rows, width_px, height_px),
            None => false,
        }
    }
}

impl<C: ColourConverter> DrawBatchBackend<C> {
    /// Records one write for each cell of `content` that is not to be
    /// skipped, in the order of the cells: the cell's first character as the
    /// glyph, and its two colours as the policy converts them.
    pub fn draw(&mut self, content: &[Placed])
        requires
            all_drawable(content@),
            old(self)@.has_room_for(content@),
        ensures
            final(self)@ == old(self)@.drawn(content@),
    {
        let ghost before = self@;
        let mut i: usize = 0;
        while i < content.len()
            invariant
                i <= content.len(),
                all_drawable(content@),
                before.has_room_for(content@),
                self@ == before.drawn(content@.take(i as int)),
            decreases content.len() - i,
        {
            let placed = &content[i];
            proof {
                lemma_writes_step(&before.colours, content@, i as int);
                lemma_writes_prefix(&before.colours, content@, i as int + 1);
            }
            match cell_write(&self.colours, placed.0, placed.1, &placed.2) {
                Some(w) => {
                    batch_set(&mut self.batch, w);
                    assert(self@.ops =~= before.drawn(content@.take(i as int + 1)).ops);
                },
                None => {},
            }
            i += 1;
        }
        assert(content@.take(content.len() as int) =~= content@);
    }

    /// Does nothing: the backend does not show the cursor.
    pub fn hide_cursor(&mut self)
        ensures
            final(self)@ == old(self)@,
    {
    }

    /// Does nothing: the backend does not show the cursor.
    pub fn show_cursor(&mut self)
        ensures
            final(self)@ == old(self)@,
    {
    }

    /// Where the logical cursor is.
    pub fn get_cursor_position(&mut self) -> (position: Position)
        ensures
            position == old(self)@.cursor,
            final(self)@ == old(self)@,
    {
        self.cursor_pos
    }

    /// Puts the logical cursor at `position`. Nothing is drawn.
    pub fn set_cursor_position(&mut self, position: Position)
        ensures
            final(self)@ == old(self)@.with_cursor(position),
    {
        self.cursor_pos = position;
    }

    /// Records a clear of the whole screen.
    pub fn clear(&mut self)
        requires
            old(self)@.recorded < u32::MAX,
        ensures
            final(self)@ == old(self)@.cleared(),
    {
        batch_cls(&mut self.batch);
    }

    /// The extent of the grid in cells, as of the last update.
    pub fn size(&self) -> (grid: Size)
        ensures
            grid == self@.grid,
    {
        self.size
    }

    /// The extent of the window in cells and in pixels, as of the last
    /// update.
    pub fn window_size(&mut self) -> (window: WindowSize)
        ensures
            window == old(self)@.window,
            final(self)@ == old(self)@,
    {
        self.window_size
    }

    /// Does nothing: the batch is shown when the caller submits it.
    pub fn flush(&mut self)
        ensures
            final(self)@ == old(self)@,
    {
    }
}

/// One use of a backend between two updates.
pub enum Step {
    /// The cells of a run are drawn.
    Draw(Seq<Placed>),
    /// The backend is cleared.
    Clear,
}

impl<C: ColourConverter> BatchView<C> {
    /// The backend after it was taken through `steps`, one after the other.
    pub open spec fn after(self, steps: Seq<Step>) -> Self
        decreases steps.len(),
    {
        if steps.len() == 0 {
            self
        } else {
            let before = self.after(steps.drop_last());
            match steps.last() {
                Step::Draw(content) => before.drawn(content),
                Step::Clear => before.cleared(),
            }
        }
    }
}

/// Drawing and clearing change what the batch holds and nothing else: the
/// policy, the cursor, the grid and the window stay as they were, and the
/// commands that the batch held stay at the start of what it holds.
pub proof fn lemma_drawing_keeps_settings<C: ColourConverter>(v: BatchView<C>, steps: Seq<Step>)
    ensures
        v.after(steps).colours == v.colours,
        v.after(steps).cursor == v.cursor,
        v.after(steps).grid == v.grid,
        v.after(steps).window == v.window,
        v.ops.is_prefix_of(v.after(steps).ops),
        v.after(steps).recorded >= v.recorded,
    decreases steps.len(),
{
    if steps.len() > 0 {
        lemma_drawing_keeps_settings(v, steps.drop_last());
    }
}

/// Until the first update a backend reports a grid that covers nothing.
/// From an update on it reports the grid that the update was given, and the
/// window with it, however much is drawn and cleared after the update.
pub proof fn lemma_size_is_stable<C: ColourConverter>(
    v: BatchView<C>,
    columns: u16,
    rows: u16,
    width_px: u32,
    height_px: u32,
    steps: Seq<Step>,
)
    ensures
        v.grid == Size::zero() ==> v.after(steps).grid == Size::zero(),
        v.resized(columns, rows, width_px, height_px).after(steps).grid == (Size {
            width: columns,
            height: rows,
        }),
        v.resized(columns, rows, width_px, height_px).after(steps).window.columns_rows == (Size {
            width: columns,
            height: rows,
        }),
        v.resized(columns, rows, width_px, height_px).after(steps).window.pixels
            == Size::low_bits(width_px, height_px),
{
    lemma_drawing_keeps_settings(v, steps);
    lemma_drawing_keeps_settings(v.resized(columns, rows, width_px, height_px), steps);
}

/// A backend that is cleared and then given one cell that is not to be
/// skipped holds, after what it held before, the clear and then the write of
/// that cell, and nothing more.
pub proof fn lemma_clear_then_draw_one<C: ColourConverter>(
    v: BatchView<C>,
    x: u16,
    y: u16,
    cell: Cell,
)
    requires
        !cell.skip,
    ensures
        v.cleared().drawn(seq![(x, y, cell)]).ops == v.ops.push(DrawOp::ClearScreen).push(
            DrawOp::SetCell(write_of(&v.colours, x, y, &cell)->0),
        ),
        v.cleared().drawn(seq![(x, y, cell)]).recorded == v.recorded + 2,
        v.cleared().drawn(seq![(x, y, cell)]) == v.after(
            seq![Step::Clear, Step::Draw(seq![(x, y, cell)])],
        ),
{
    let content = seq![(x, y, cell)];
    assert(content.drop_last() =~= Seq::<Placed>::empty());
    assert(content.last() == (x, y, cell));
    reveal_with_fuel(writes_of, 2);
    let w = write_of(&v.colours, x, y, &cell)->0;
    assert(writes_of(&v.colours, content) =~= seq![w]);
    assert(set_ops(seq![w]) =~= seq![DrawOp::SetCell(w)]);
    assert(v.cleared().drawn(content).ops =~= v.ops.push(DrawOp::ClearScreen).push(
        DrawOp::SetCell(w),
    ));
    let steps = seq![Step::Clear, Step::Draw(content)];
    assert(steps.drop_last() =~= seq![Step::Clear]);
    assert(steps.drop_last().drop_last() =~= Seq::<Step>::empty());
    reveal_with_fuel(BatchView::after, 3);
}

/// A cell that is to be skipped leaves the batch as it was.
pub proof fn lemma_skipped_cell_is_not_drawn<C: ColourConverter>(
    v: BatchView<C>,
    x: u16,
    y: u16,
    cell: Cell,
)
    requires
        cell.skip,
    ensures
        v.drawn(seq![(x, y, cell)]) == v,
{
    let content = seq![(x, y, cell)];
    assert(content.drop_last() =~= Seq::<Placed>::empty());
    assert(content.last() == (x, y, cell));
    reveal_with_fuel(writes_of, 2);
    assert(writes_of(&v.colours, content) =~= Seq::<CellWrite>::empty());
    assert(v.drawn(content).ops =~= v.ops);
}

/// A backend shows the cursor where it was last put, whatever was drawn or
/// cleared since.
pub proof fn lemma_cursor_round_trip<C: ColourConverter>(
    v: BatchView<C>,
    position: Position,
    steps: Seq<Step>,
)
    ensures
        v.with_cursor(position).cursor == position,
        v.with_cursor(position).after(steps).cursor == position,
{
    lemma_drawing_keeps_settings(v.with_cursor(position), steps);
}

} // verus!
