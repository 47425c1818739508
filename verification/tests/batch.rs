use bracket_terminal::prelude as host;
use ratatui_bracket_terminal::cell::Cell;
use ratatui_bracket_terminal::colours::{Colour, Modifier};
use ratatui_bracket_terminal::draw_batch::DrawBatchBackend;
use ratatui_bracket_terminal::geometry::{Position, Size, WindowSize};
use ratatui_bracket_terminal::BasicColourConverter;

/// A display context on a console of its own, `columns` by `rows`.
fn context(columns: u32, rows: u32, width_px: u32, height_px: u32) -> host::BTerm {
    let mut ctx = host::BTerm {
        width_pixels: width_px,
        height_pixels: height_px,
        original_height_pixels: height_px,
        original_width_pixels: width_px,
        fps: 0.0,
        frame_time_ms: 0.0,
        active_console: 0,
        key: None,
        mouse_pos: (0, 0),
        left_click: false,
        shift: false,
        control: false,
        alt: false,
        web_button: None,
        quitting: false,
        post_scanlines: false,
        post_screenburn: false,
        screen_burn_color: host::RGB::from_u8(0, 0, 0),
        mouse_visible: true,
    };
    let index = ctx.register_console(host::SimpleConsole::init(columns, rows), 0);
    ctx.active_console = index;
    ctx
}

/// The glyph and the two colours that the context's console holds at a cell.
fn tile(ctx: &host::BTerm, x: u32, y: u32) -> (u16, host::RGBA, host::RGBA) {
    let internal = host::BACKEND_INTERNAL.lock();
    let console = internal.consoles[ctx.active_console]
        .console
        .as_any()
        .downcast_ref::<host::SimpleConsole>()
        .unwrap();
    let t = &console.tiles[((console.height - 1 - y) * console.width + x) as usize];
    (t.glyph, t.fg, t.bg)
}

/// Submits the backend's batch and has the host carry out what was submitted.
fn show(backend: &mut DrawBatchBackend<BasicColourConverter>, ctx: &mut host::BTerm) {
    backend.batch_mut().submit(0).unwrap();
    host::render_draw_buffer(ctx).unwrap();
    host::clear_command_buffer().unwrap();
}

/// A backend with the default policy, on a batch of its own from the host's
/// pool.
fn backend() -> DrawBatchBackend<BasicColourConverter> {
    DrawBatchBackend::new(BasicColourConverter::default(), host::DrawBatch::new())
}

fn cell(symbol: &str, fg: Colour, bg: Colour, skip: bool) -> Cell {
    Cell { symbol: symbol.to_string(), fg, bg, modifier: Modifier::empty(), skip }
}

const BLANK: u16 = 32;

#[test]
fn new_backend_covers_nothing() {
    let mut backend = backend();
    assert_eq!(backend.size(), Size { width: 0, height: 0 });
    assert_eq!(
        backend.window_size(),
        WindowSize {
            columns_rows: Size { width: 0, height: 0 },
            pixels: Size { width: 0, height: 0 },
        }
    );
    assert_eq!(backend.get_cursor_position(), Position { x: 0, y: 0 });
}

#[test]
fn drawing_before_the_first_update_leaves_the_size_at_zero() {
    let mut backend = backend();
    backend.clear();
    backend.draw(&[(1, 1, cell("a", Colour::Red, Colour::Reset, false))]);
    assert_eq!(backend.size(), Size { width: 0, height: 0 });
    assert_eq!(backend.window_size().columns_rows, Size { width: 0, height: 0 });
}

#[test]
fn update_takes_the_hosts_size_and_drawing_keeps_it() {
    let ctx = context(80, 50, 640, 400);
    let mut backend = backend();
    assert!(backend.update(&ctx));
    let window = WindowSize {
        columns_rows: Size { width: 80, height: 50 },
        pixels: Size { width: 640, height: 400 },
    };
    assert_eq!(backend.size(), Size { width: 80, height: 50 });
    assert_eq!(backend.window_size(), window);
    backend.clear();
    backend.draw(&[
        (1, 1, cell("a", Colour::Red, Colour::Reset, false)),
        (2, 1, cell("b", Colour::Red, Colour::Reset, true)),
    ]);
    backend.set_cursor_position(Position { x: 5, y: 5 });
    backend.flush();
    assert_eq!(backend.size(), Size { width: 80, height: 50 });
    assert_eq!(backend.window_size(), window);
}

#[test]
fn size_is_that_of_the_last_update_not_of_the_host() {
    let mut ctx = context(80, 50, 640, 400);
    let mut backend = backend();
    assert!(backend.update(&ctx));
    let index = ctx.register_console(host::SimpleConsole::init(7, 3), 0);
    ctx.active_console = index;
    ctx.width_pixels = 70000;
    ctx.height_pixels = 65536;
    assert_eq!(backend.size(), Size { width: 80, height: 50 });
    assert!(backend.update(&ctx));
    assert_eq!(backend.size(), Size { width: 7, height: 3 });
    assert_eq!(
        backend.window_size(),
        WindowSize {
            columns_rows: Size { width: 7, height: 3 },
            pixels: Size { width: 4464, height: 0 },
        }
    );
}

#[test]
fn update_refuses_a_grid_beyond_sixteen_bits() {
    let small = context(12, 34, 96, 272);
    let wide = context(65536, 1, 8, 8);
    let tall = context(1, 65536, 8, 8);
    let edge = context(65535, 1, 8, 8);
    let mut backend = backend();
    assert!(backend.update(&small));
    assert!(!backend.update(&wide));
    assert_eq!(backend.size(), Size { width: 12, height: 34 });
    assert_eq!(backend.window_size().pixels, Size { width: 96, height: 272 });
    assert!(!backend.update(&tall));
    assert_eq!(backend.size(), Size { width: 12, height: 34 });
    assert!(backend.update(&edge));
    assert_eq!(backend.size(), Size { width: 65535, height: 1 });
}

#[test]
fn try_resize_takes_a_grid_that_fits_and_refuses_a_larger_one() {
    let mut backend = backend();
    assert!(backend.try_resize(80, 50, 70000, 400));
    let taken = WindowSize {
        columns_rows: Size { width: 80, height: 50 },
        pixels: Size { width: 4464, height: 400 },
    };
    assert_eq!(backend.size(), Size { width: 80, height: 50 });
    assert_eq!(backend.window_size(), taken);
    assert!(!backend.try_resize(65536, 50, 8, 8));
    assert_eq!(backend.size(), Size { width: 80, height: 50 });
    assert_eq!(backend.window_size(), taken);
    assert!(!backend.try_resize(50, 65536, 8, 8));
    assert!(!backend.try_resize(u32::MAX, u32::MAX, 8, 8));
    assert_eq!(backend.size(), Size { width: 80, height: 50 });
    assert_eq!(backend.window_size(), taken);
    assert!(backend.try_resize(65535, 65535, 0, 65536));
    assert_eq!(backend.size(), Size { width: 65535, height: 65535 });
    assert_eq!(backend.window_size().pixels, Size { width: 0, height: 0 });
    assert!(backend.try_resize(0, 0, 1, 2));
    assert_eq!(backend.size(), Size { width: 0, height: 0 });
    assert_eq!(backend.window_size().pixels, Size { width: 1, height: 2 });
}

#[test]
fn resize_takes_what_it_is_given() {
    let mut backend = backend();
    backend.resize(3, 4, 65537, 9);
    assert_eq!(backend.size(), Size { width: 3, height: 4 });
    assert_eq!(
        backend.window_size(),
        WindowSize {
            columns_rows: Size { width: 3, height: 4 },
            pixels: Size { width: 1, height: 9 },
        }
    );
}

#[test]
fn batch_cursor_round_trip_survives_drawing() {
    let ctx = context(4, 4, 32, 32);
    let mut backend = backend();
    backend.set_cursor_position(Position { x: 65535, y: 2 });
    assert_eq!(backend.get_cursor_position(), Position { x: 65535, y: 2 });
    backend.draw(&[(1, 1, cell("a", Colour::Red, Colour::Reset, false))]);
    backend.clear();
    backend.hide_cursor();
    backend.show_cursor();
    backend.flush();
    assert!(backend.update(&ctx));
    assert_eq!(backend.get_cursor_position(), Position { x: 65535, y: 2 });
    backend.set_cursor_position(Position { x: 0, y: 0 });
    assert_eq!(backend.get_cursor_position(), Position { x: 0, y: 0 });
}

#[test]
fn clear_then_draw_of_one_cell_shows_that_cell_on_a_cleared_screen() {
    let mut ctx = context(4, 3, 32, 24);
    ctx.set(0, 0, host::RGBA::from_u8(9, 9, 9, 9), host::RGBA::from_u8(8, 8, 8, 8), 77u16);
    ctx.set(3, 2, host::RGBA::from_u8(9, 9, 9, 9), host::RGBA::from_u8(8, 8, 8, 8), 78u16);
    let mut backend = backend();
    backend.batch_mut().submit(0).unwrap();
    host::clear_command_buffer().unwrap();
    backend.clear();
    backend.draw(&[(2, 1, cell("A", Colour::LightRed, Colour::Rgb(1, 2, 3), false))]);
    show(&mut backend, &mut ctx);
    let white = host::RGBA::from_u8(255, 255, 255, 255);
    let black = host::RGBA::from_u8(0, 0, 0, 255);
    for y in 0..3 {
        for x in 0..4 {
            if (x, y) == (2, 1) {
                assert_eq!(
                    tile(&ctx, x, y),
                    (65, host::RGBA::from_u8(255, 0, 0, 255), host::RGBA::from_u8(1, 2, 3, 255))
                );
            } else {
                assert_eq!(tile(&ctx, x, y), (BLANK, white, black));
            }
        }
    }
}

#[test]
fn draw_records_cells_in_order_and_not_the_skipped_ones() {
    let mut ctx = context(4, 3, 32, 24);
    ctx.set(3, 2, host::RGBA::from_u8(9, 9, 9, 9), host::RGBA::from_u8(8, 8, 8, 8), 78u16);
    let kept = tile(&ctx, 3, 2);
    let mut backend = backend();
    backend.batch_mut().submit(0).unwrap();
    host::clear_command_buffer().unwrap();
    backend.draw(&[
        (1, 1, cell("a", Colour::Red, Colour::Reset, false)),
        (3, 2, cell("s", Colour::Red, Colour::Reset, true)),
        (1, 1, cell("b", Colour::Blue, Colour::Reset, false)),
        (0, 0, cell("", Colour::Blue, Colour::Reset, true)),
    ]);
    show(&mut backend, &mut ctx);
    assert_eq!(
        tile(&ctx, 1, 1),
        (98, host::RGBA::from_u8(0, 0, 255, 255), host::RGBA::from_u8(0, 0, 0, 255))
    );
    assert_eq!(tile(&ctx, 3, 2), kept);
    assert_eq!(tile(&ctx, 0, 0).0, 0);
}

#[test]
fn drawing_changes_the_hosts_grid_only_when_the_batch_is_shown() {
    let mut ctx = context(4, 3, 32, 24);
    let before = tile(&ctx, 1, 1);
    let mut backend = backend();
    backend.batch_mut().submit(0).unwrap();
    host::clear_command_buffer().unwrap();
    backend.draw(&[(1, 1, cell("a", Colour::Red, Colour::Reset, false))]);
    assert_eq!(tile(&ctx, 1, 1), before);
    host::render_draw_buffer(&mut ctx).unwrap();
    assert_eq!(tile(&ctx, 1, 1), before);
    show(&mut backend, &mut ctx);
    assert_eq!(tile(&ctx, 1, 1).0, 97);
}

#[test]
fn clear_after_draw_wipes_what_was_drawn() {
    let mut ctx = context(4, 3, 32, 24);
    let mut backend = backend();
    backend.batch_mut().submit(0).unwrap();
    host::clear_command_buffer().unwrap();
    backend.draw(&[(1, 1, cell("a", Colour::Red, Colour::Reset, false))]);
    backend.clear();
    show(&mut backend, &mut ctx);
    assert_eq!(tile(&ctx, 1, 1).0, BLANK);
}

#[test]
fn batch_can_be_looked_at_and_used_by_the_caller() {
    let mut ctx = context(4, 3, 32, 24);
    let mut backend = backend();
    backend.batch_mut().submit(0).unwrap();
    host::clear_command_buffer().unwrap();
    backend.draw(&[(1, 1, cell("a", Colour::Red, Colour::Reset, false))]);
    backend.batch_mut().set(
        host::Point::new(2, 2),
        host::ColorPair::new(host::RGBA::from_u8(1, 1, 1, 1), host::RGBA::from_u8(2, 2, 2, 2)),
        66u16,
    );
    let _looked_at: &host::DrawBatch = backend.batch();
    show(&mut backend, &mut ctx);
    assert_eq!(tile(&ctx, 1, 1).0, 97);
    assert_eq!(
        tile(&ctx, 2, 2),
        (66, host::RGBA::from_u8(1, 1, 1, 1), host::RGBA::from_u8(2, 2, 2, 2))
    );
}

#[test]
fn update_on_a_context_without_console_leaves_the_backend_as_it_was() {
    let small = context(12, 34, 96, 272);
    let mut bare = context(1, 1, 8, 8);
    bare.active_console = usize::MAX;
    let mut backend = backend();
    assert!(!backend.update(&bare));
    assert_eq!(backend.size(), Size { width: 0, height: 0 });
    assert!(backend.update(&small));
    assert!(!backend.update(&bare));
    assert_eq!(backend.size(), Size { width: 12, height: 34 });
    assert_eq!(backend.window_size().pixels, Size { width: 96, height: 272 });
}

#[test]
fn backend_starts_with_the_batch_as_it_is_handed_in() {
    let mut ctx = context(4, 3, 32, 24);
    let mut batch = host::DrawBatch::new();
    batch.submit(0).unwrap();
    host::clear_command_buffer().unwrap();
    batch.set(
        host::Point::new(0, 0),
        host::ColorPair::new(host::RGBA::from_u8(1, 1, 1, 1), host::RGBA::from_u8(2, 2, 2, 2)),
        66u16,
    );
    let mut backend = DrawBatchBackend::new(BasicColourConverter::default(), batch);
    backend.draw(&[(1, 1, cell("a", Colour::Red, Colour::Reset, false))]);
    show(&mut backend, &mut ctx);
    assert_eq!(tile(&ctx, 0, 0).0, 66);
    assert_eq!(tile(&ctx, 1, 1).0, 97);
}

#[test]
fn draw_of_a_run_without_writes_records_nothing() {
    let mut ctx = context(4, 3, 32, 24);
    ctx.set(1, 1, host::RGBA::from_u8(9, 9, 9, 9), host::RGBA::from_u8(8, 8, 8, 8), 77u16);
    let before = tile(&ctx, 1, 1);
    let mut backend = backend();
    backend.batch_mut().submit(0).unwrap();
    host::clear_command_buffer().unwrap();
    backend.draw(&[]);
    backend.draw(&[(1, 1, cell("a", Colour::Red, Colour::Reset, true))]);
    show(&mut backend, &mut ctx);
    assert_eq!(tile(&ctx, 1, 1), before);
}
