//! Backends that draw straight onto the host's display context.
//!
//! This is the handier of the two kinds of backend where the text UI is all
//! that is drawn on the terminal. Else the backend on a
//! [batch of commands][crate::draw_batch] is probably the better choice.
//!
//! ```rust,ignore
//! fn tick(&mut self, ctx: &mut BTerm) {
//!     let mut backend = self.backend_man.get(ctx);
//!     backend.clear();
//!     backend.draw(&cells);
//! }
//! ```

use vstd::prelude::*;
use bracket_terminal::prelude::BTerm;
use crate::cell::{
    all_drawable,
    cell_write,
    lemma_writes_prefix,
    lemma_writes_step,
    writes_of,
    CellWrite,
    Placed,
};
use crate::colours::ColourConverter;
use crate::geometry::{Position, Size, WindowSize};
use crate::host::{
    host_char_size,
    host_cls,
    host_pixel_size,
    host_pixels,
    host_set,
    set_ops,
    DrawOp,
    Handed,
};

verus! {

/// The long-lived half of a backend on a display context: it keeps the
/// conversion policy and the logical cursor from one tick to the next, and
/// lends both to the backend that it makes for a tick.
///
/// Calling code keeps one manager and asks it for a backend on each tick.
/// That has two consequences:
/// - while a backend lives, it alone can use the display context and the
///   manager, and
/// - a backend cannot be kept beyond the tick's borrow of the context.
pub struct BTermBackendManager<C> {
    colours: C,
    cursor_pos: Position,
}

/// A backend that draws on a display context, which it borrows for as long
/// as it lives, as it borrows the policy and the cursor of the manager that
/// made it.
///
/// Use [`BTermBackendManager::get`] to make one. The fields are public so
/// that the contracts can say what the lenders get back.
pub struct BTermBackend<'a, 'b, C> {
    pub bterm: &'b mut BTerm,
    pub colours: &'a C,
    pub cursor_pos: &'a mut Position,
    /// The drawing calls that the backend has handed to the context's
    /// console since it was made. What the console made of the calls is the
    /// host's affair and is not on record.
    pub sent: Handed,
}

impl<C> BTermBackendManager<C> {
    /// Where the logical cursor was left.
    pub closed spec fn cursor(&self) -> Position {
        self.cursor_pos
    }

    /// The conversion policy.
    pub closed spec fn colours(&self) -> C {
        self.colours
    }

    /// A manager with the conversion policy `colours` and the cursor at the
    /// origin.
    pub fn new(colours: C) -> (manager: Self)
        ensures
            manager.cursor() == Position::origin(),
            manager.colours() == colours,
    {
        BTermBackendManager { colours, cursor_pos: Position { x: 0, y: 0 } }
    }

    /// Makes a backend on the display context `bterm`. The backend starts
    /// with the cursor where the manager has it and with no call made, and
    /// the manager gets the cursor back as the backend leaves it.
    pub fn get<'a, 'b>(&'a mut self, bterm: &'b mut BTerm) -> (backend: BTermBackend<'a, 'b, C>)
        ensures
            *backend.cursor_pos == old(self).cursor(),
            *backend.colours == old(self).colours(),
            *backend.bterm == *old(bterm),
            backend.sent.calls() == Seq::<DrawOp>::empty(),
            final(self).cursor() == *final(backend.cursor_pos),
            final(self).colours() == old(self).colours(),
            *final(bterm) == *final(backend.bterm),
    {
        BTermBackend {
            bterm,
            colours: &self.colours,
            cursor_pos: &mut self.cursor_pos,
            sent: Handed::new(),
        }
    }
}

impl<'a, 'b, C: ColourConverter> BTermBackend<'a, 'b, C> {
    /// Where the logical cursor is.
    pub open spec fn cursor(&self) -> Position {
        *self.cursor_pos
    }

    /// Whether `after` is this backend with nothing changed but, at most,
    /// the record of the calls made: the same policy, the same cursor with
    /// the same loan of it from the manager, and the same display context
    /// with the same loan of it.
    pub open spec fn kept(&self, after: &Self) -> bool {
        &&& after.colours == self.colours
        &&& after.cursor_pos == self.cursor_pos
        &&& after.bterm == self.bterm
    }

    /// Whether a record of calls that stood at `before` stands at `after`
    /// once some of `writes`, but not all, were handed on: the first few of
    /// them, in their order, and none after the first that was not.
    pub open spec fn sent_some(before: Seq<DrawOp>, after: Seq<DrawOp>, writes: Seq<CellWrite>) -> bool {
        exists|n: int| 0 <= n < writes.len() && after == before + set_ops(#[trigger] writes.take(n))
    }

    /// Hands each cell of `content` that is not to be skipped to the console
    /// of the display context, in the order of the cells: the cell's first
    /// character as the glyph, and its two colours as the policy converts
    /// them. For a cell that is to be skipped the console is not called.
    ///
    /// The result is `true` where every write was handed on; a run of cells
    /// that leads to no write always ends so. It is `false` where the
    /// context had no console when a write was due: the writes before that
    /// one were handed on, and no later one was tried.
    pub fn draw(&mut self, content: &[Placed]) -> (done: bool)
        requires
            all_drawable(content@),
        ensures
            old(self).kept(final(self)),
            done ==> final(self).sent.calls() == old(self).sent.calls() + set_ops(
                writes_of(old(self).colours, content@),
            ),
            !done ==> Self::sent_some(
                old(self).sent.calls(),
                final(self).sent.calls(),
                writes_of(old(self).colours, content@),
            ),
            writes_of(old(self).colours, content@).len() == 0 ==> done && *final(self) == *old(self),
    {
        let mut i: usize = 0;
        while i < content.len()
            invariant
                i <= content.len(),
                all_drawable(content@),
                old(self).kept(self),
                self.sent.calls() == old(self).sent.calls() + set_ops(
                    writes_of(self.colours, content@.take(i as int)),
                ),
                writes_of(self.colours, content@.take(i as int)).len() == 0 ==> *self == *old(self),
            decreases content.len() - i,
        {
            let placed = &content[i];
            proof {
                lemma_writes_step(self.colours, content@, i as int);
                lemma_writes_prefix(self.colours, content@, i as int);
                lemma_writes_prefix(self.colours, content@, i as int + 1);
            }
            match cell_write(self.colours, placed.0, placed.1, &placed.2) {
                Some(w) => {
                    if !host_set(self.bterm, w, &mut self.sent) {
                        assert(Self::sent_some(
                            old(self).sent.calls(),
                            self.sent.calls(),
                            writes_of(self.colours, content@),
                        ));
                        return false;
                    }
                    assert(self.sent.calls() =~= old(self).sent.calls() + set_ops(
                        writes_of(self.colours, content@.take(i as int + 1)),
                    ));
                },
                None => {},
            }
            i += 1;
        }
        assert(content@.take(content.len() as int) =~= content@);
        true
    }

    /// Does nothing: the backend does not show the cursor.
    pub fn hide_cursor(&mut self)
        ensures
            *final(self) == *old(self),
    {
    }

    /// Does nothing: the backend does not show the cursor.
    pub fn show_cursor(&mut self)
        ensures
            *final(self) == *old(self),
    {
    }

    /// Where the logical cursor is.
    pub fn get_cursor_position(&mut self) -> (position: Position)
        ensures
            position == old(self).cursor(),
            *final(self) == *old(self),
    {
        *self.cursor_pos
    }

    /// Puts the logical cursor at `position`. Nothing is drawn, and the
    /// display context is not called.
    pub fn set_cursor_position(&mut self, position: Position)
        ensures
            final(self).cursor() == position,
            final(self).colours == old(self).colours,
            final(self).bterm == old(self).bterm,
            final(self).sent == old(self).sent,
            *final(final(self).cursor_pos) == *final(old(self).cursor_pos),
    {
        *self.cursor_pos = position;
    }

    /// Asks the console of the display context to clear itself: that one
    /// call, and no other. The result is `false`, with no call made, where
    /// the context has no console.
    pub fn clear(&mut self) -> (done: bool)
        ensures
            old(self).kept(final(self)),
            done ==> final(self).sent.calls() == old(self).sent.calls().push(DrawOp::ClearScreen),
            !done ==> final(self).sent.calls() == old(self).sent.calls(),
    {
        host_cls(self.bterm, &mut self.sent)
    }

    /// The extent of the grid in cells, as the console of the display
    /// context reports it at the time of the call, each side cut down to
    /// sixteen bits by [`Size::truncated`]; `None` where the context has no
    /// console. The console is the host's, and the contract says nothing of
    /// what it reports.
    pub fn size(&self) -> (grid: Option<Size>) {
        match host_char_size(self.bterm) {
            Some((columns, rows)) => Some(Size::truncated(columns, rows)),
            None => None,
        }
    }

    /// The extent of the window in cells and in pixels, put together by
    /// [`WindowSize::of_host`]: the cells as the console of the display
    /// context reports them at the time of the call, the pixels as the
    /// context holds them. `None` where the context has no console.
    pub fn window_size(&mut self) -> (window: Option<WindowSize>)
        ensures
            *final(self) == *old(self),
            window matches Some(w) ==> w.pixels == Size::low_bits(
                host_pixels(*old(self).bterm).0,
                host_pixels(*old(self).bterm).1,
            ),
    {
        let (width_px, height_px) = host_pixel_size(self.bterm);
        match host_char_size(self.bterm) {
            Some((columns, rows)) => Some(WindowSize::of_host(columns, rows, width_px, height_px)),
            None => None,
        }
    }

    /// Does nothing: what is written to the display context needs no flush.
    pub fn flush(&mut self)
        ensures
            *final(self) == *old(self),
    {
    }
}

/// A backend shows the cursor where it was last put, whatever was drawn or
/// cleared since: if `states` are the states that a backend went through,
/// each one kept by the step to the next, and the cursor is at `position` in
/// the first of them, then it is at `position` in the last.
pub proof fn lemma_cursor_is_kept<'a, 'b, C: ColourConverter>(
    states: Seq<BTermBackend<'a, 'b, C>>,
    position: Position,
)
    requires
        states.len() > 0,
        states[0].cursor() == position,
        forall|i: int| 0 <= i < states.len() - 1 ==> (#[trigger] states[i]).kept(&states[i + 1]),
    ensures
        states.last().cursor() == position,
        states[0].kept(&states.last()),
    decreases states.len(),
{
    if states.len() > 1 {
        let shorter = states.drop_last();
        assert forall|i: int| 0 <= i < shorter.len() - 1 implies (#[trigger] shorter[i]).kept(
            &shorter[i + 1],
        ) by {
            assert(states[i].kept(&states[i + 1]));
        }
        lemma_cursor_is_kept(shorter, position);
        assert(states[states.len() - 2].kept(&states[states.len() - 1]));
    }
}

} // verus!
