//! The host terminal's own types and calls, as far as the adapters use them.
//!
//! But for the empty start of a record of calls, nothing in this file is
//! proved. Each function here that has its body taken on trust makes one call
//! into the host's crate, and its contract says what that crate's source
//! shows of the call; the adapters are proved against these contracts.
//!
//! The host keeps its consoles in one list for the whole process
//! (`BACKEND_INTERNAL`), apart from the display context that is handed
//! around. The context holds the place in that list of the console it has
//! active, and the host's own drawing calls on the context index the list by
//! it, which panics on a context that has no console there. The functions
//! here look the console up instead, and say in their result whether they
//! found one. The list sits behind a lock that one thread cannot take twice:
//! a caller that holds it has to let go of it before it calls a backend.

use vstd::prelude::*;
use bracket_terminal::prelude::{BTerm, ColorPair, DrawBatch, Point, BACKEND_INTERNAL, RGBA};
use object_pool::Reusable;
use crate::cell::CellWrite;

verus! {

/// The host's display context.
#[verifier::external_type_specification]
#[verifier::external_body]
pub struct ExBTerm(bracket_terminal::prelude::BTerm);

/// The host's batch of drawing commands.
#[verifier::external_type_specification]
#[verifier::external_body]
pub struct ExDrawBatch(bracket_terminal::prelude::DrawBatch);

/// A value on loan from a pool, which takes it back when the loan is dropped.
#[verifier::external_type_specification]
#[verifier::external_body]
#[verifier::reject_recursive_types(T)]
pub struct ExReusable<'a, T>(object_pool::Reusable<'a, T>);

/// A drawing command, as far as the adapters tell commands apart.
#[derive(Clone, Copy, Debug, PartialEq, Eq, Structural)]
pub enum DrawOp {
    /// Clear the whole screen.
    ClearScreen,
    /// Write one cell. The colours are given by the four bytes that the
    /// host's colour was made from.
    SetCell(CellWrite),
    /// Any other command.
    Other,
}

/// The commands that a run of writes makes, one for each write and in the
/// order of the writes.
pub open spec fn set_ops(writes: Seq<CellWrite>) -> Seq<DrawOp> {
    writes.map_values(|w: CellWrite| DrawOp::SetCell(w))
}

/// The commands that a batch holds, in the order in which they were
/// recorded.
pub uninterp spec fn batch_ops(batch: Reusable<'static, DrawBatch>) -> Seq<DrawOp>;

/// The number that a batch will give to the next command it records. The
/// batch numbers its commands from zero and keeps the count in 32 bits.
pub uninterp spec fn batch_next_z(batch: Reusable<'static, DrawBatch>) -> nat;

/// `DrawBatch::set`: records, after the commands that the batch holds, the
/// write of one cell, with the write's position, glyph and colours, and
/// counts it. The count must have room for one more.
#[verifier::external_body]
pub(crate) fn batch_set(batch: &mut Reusable<'static, DrawBatch>, w: CellWrite)
    requires
        batch_next_z(*old(batch)) < u32::MAX,
    ensures
        batch_ops(*final(batch)) == batch_ops(*old(batch)).push(DrawOp::SetCell(w)),
        batch_next_z(*final(batch)) == batch_next_z(*old(batch)) + 1,
{
    let fg = RGBA::from_u8(w.fg.r, w.fg.g, w.fg.b, w.fg.a);
    let bg = RGBA::from_u8(w.bg.r, w.bg.g, w.bg.b, w.bg.a);
    batch.set(Point::new(w.x, w.y), ColorPair::new(fg, bg), w.glyph);
}

/// `DrawBatch::cls`: records, after the commands that the batch holds, a
/// clear of the whole screen, and counts it. The count must have room for
/// one more.
#[verifier::external_body]
pub(crate) fn batch_cls(batch: &mut Reusable<'static, DrawBatch>)
    requires
        batch_next_z(*old(batch)) < u32::MAX,
    ensures
        batch_ops(*final(batch)) == batch_ops(*old(batch)).push(DrawOp::ClearScreen),
        batch_next_z(*final(batch)) == batch_next_z(*old(batch)) + 1,
{
    batch.cls();
}

/// The width and height of the host's window in pixels that a display
/// context holds in its fields `width_pixels` and `height_pixels`.
pub uninterp spec fn host_pixels(bterm: BTerm) -> (u32, u32);

/// The record of the drawing calls that were handed to the console of a
/// display context, oldest first.
///
/// A record starts empty, and only [`host_set`] and [`host_cls`] add to it:
/// each adds the call that it made. The record is kept for the proofs alone
/// and holds nothing when the program runs. That it grows with the calls is
/// what the contracts of those two functions say, and is taken on trust with
/// them.
pub struct Handed {
    calls: Ghost<Seq<DrawOp>>,
}

impl Handed {
    /// The calls on record, oldest first.
    pub closed spec fn calls(&self) -> Seq<DrawOp> {
        self.calls@
    }

    /// A record with no call on it.
    pub fn new() -> (handed: Handed)
        ensures
            handed.calls() == Seq::<DrawOp>::empty(),
    {
        Handed { calls: Ghost(Seq::empty()) }
    }
}

/// `Console::set` on the console that the context has active, which is what
/// `BTerm::set` calls: it hands the console a glyph and its two colours for
/// one cell, and the record gains that write. The console is looked up in
/// the host's list with `get_mut`; the result is `false`, nothing was called
/// and the record is as it was, where the list has no console at the
/// context's place. What the console makes of the write is its own affair,
/// and the list is no part of the context's value: nothing is said of either,
/// nor of when there is a console.
#[verifier::external_body]
pub(crate) fn host_set(bterm: &BTerm, w: CellWrite, handed: &mut Handed) -> (taken: bool)
    ensures
        taken ==> final(handed).calls() == old(handed).calls().push(DrawOp::SetCell(w)),
        !taken ==> final(handed).calls() == old(handed).calls(),
{
    let fg = RGBA::from_u8(w.fg.r, w.fg.g, w.fg.b, w.fg.a);
    let bg = RGBA::from_u8(w.bg.r, w.bg.g, w.bg.b, w.bg.a);
    match BACKEND_INTERNAL.lock().consoles.get_mut(bterm.active_console) {
        Some(entry) => {
            entry.console.set(i32::from(w.x), i32::from(w.y), fg, bg, w.glyph);
            true
        },
        None => false,
    }
}

/// `Console::cls` on the console that the context has active, which is what
/// `BTerm::cls` calls: it asks the console to clear itself, and the record
/// gains that clear. The console is looked up in the host's list with
/// `get_mut`; the result is `false`, nothing was called and the record is as
/// it was, where the list has no console at the context's place. Nothing is
/// said of the console, nor of when there is one.
#[verifier::external_body]
pub(crate) fn host_cls(bterm: &BTerm, handed: &mut Handed) -> (taken: bool)
    ensures
        taken ==> final(handed).calls() == old(handed).calls().push(DrawOp::ClearScreen),
        !taken ==> final(handed).calls() == old(handed).calls(),
{
    match BACKEND_INTERNAL.lock().consoles.get_mut(bterm.active_console) {
        Some(entry) => {
            entry.console.cls();
            true
        },
        None => false,
    }
}

/// `Console::get_char_size` on the console that the context has active,
/// which is what `BTerm::get_char_size` calls: the columns and rows of the
/// console, as it reports them at the time of the call. The console is
/// looked up in the host's list with `get`; the result is `None` where the
/// list has no console at the context's place. Nothing is said of what is
/// reported, nor of when there is a console.
#[verifier::external_body]
pub(crate) fn host_char_size(bterm: &BTerm) -> (columns_rows: Option<(u32, u32)>) {
    match BACKEND_INTERNAL.lock().consoles.get(bterm.active_console) {
        Some(entry) => Some(entry.console.get_char_size()),
        None => None,
    }
}

/// The width and height of the host's window in pixels, as the context's
/// fields `width_pixels` and `height_pixels` hold them.
#[verifier::external_body]
pub(crate) fn host_pixel_size(bterm: &BTerm) -> (pixels: (u32, u32))
    ensures
        pixels == host_pixels(*bterm),
{
    (bterm.width_pixels, bterm.height_pixels)
}

} // verus!
