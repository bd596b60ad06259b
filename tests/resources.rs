use frug::input::MouseButton;
use frug::quad::{quad_corners, quad_tex_coords, tex_bounds, TexBounds};
use frug::run_loop::{Action, LoopState, Signal};
use frug::surface::SurfaceSize;
use frug::frame::SurfaceFault;
use frug::texture::TextureTable;

#[test]
fn unflipped_tex_coords() {
    assert_eq!(quad_tex_coords(false, false), [(0, 0), (0, 1), (1, 1), (1, 0)]);
    assert_eq!(tex_bounds(false, false), TexBounds { left: 0, right: 1, top: 0, bottom: 1 });
}

#[test]
fn flip_x_swaps_u() {
    assert_eq!(quad_tex_coords(true, false), [(1, 0), (1, 1), (0, 1), (0, 0)]);
}

#[test]
fn flip_y_swaps_v() {
    assert_eq!(quad_tex_coords(false, true), [(0, 1), (0, 0), (1, 0), (1, 1)]);
    assert_eq!(quad_tex_coords(true, true), [(1, 1), (1, 0), (0, 0), (0, 1)]);
}

#[test]
fn corner_layout() {
    assert_eq!(quad_corners(), [(0, 0), (0, 1), (1, 1), (1, 0)]);
}

#[test]
fn texture_indices_in_call_order() {
    let mut t: TextureTable<&str> = TextureTable::new();
    assert_eq!(t.load_texture::<()>(Ok("a")), Ok(0));
    assert_eq!(t.load_texture::<()>(Ok("b")), Ok(1));
    assert_eq!(t.load_texture(Err("bad bytes")), Err("bad bytes"));
    assert_eq!(t.load_texture::<()>(Ok("c")), Ok(2));
    assert_eq!(t.len(), 3);
    assert_eq!(t.get(2), Some(&"c"));
    assert_eq!(t.get(3), None);
}

#[test]
fn resize_ignores_zero_dimensions() {
    let mut s = SurfaceSize { width: 800, height: 600 };
    assert!(!s.resize(0, 300));
    assert_eq!(s, SurfaceSize { width: 800, height: 600 });
    assert!(!s.resize(300, 0));
    assert_eq!(s, SurfaceSize { width: 800, height: 600 });
    assert!(s.resize(1024, 768));
    assert_eq!(s, SurfaceSize { width: 1024, height: 768 });
}

#[test]
fn mouse_button_numbers() {
    let v: Vec<usize> = vec![
        MouseButton::Left.into(),
        MouseButton::Right.into(),
        MouseButton::Middle.into(),
        MouseButton::Other.into(),
    ];
    assert_eq!(v, vec![0, 1, 2, 3]);
}

#[test]
fn loop_steps() {
    let mut l = LoopState::new(SurfaceSize { width: 640, height: 480 });
    assert_eq!(l.on_signal(Signal::CloseRequested), Action::Exit);
    assert_eq!(l.on_signal(Signal::Resized { width: 0, height: 10 }), Action::Wait);
    assert_eq!(l.size, SurfaceSize { width: 640, height: 480 });
    let c = l.on_signal(Signal::Resized { width: 320, height: 200 });
    assert_eq!(c, Action::Configure(SurfaceSize { width: 320, height: 200 }));
    assert_eq!(l.on_signal(Signal::RedrawRequested), Action::Render);
    assert_eq!(l.on_signal(Signal::EventsCleared), Action::Tick);
    assert_eq!(l.after_tick(), Action::Wait);
    l.exit();
    assert_eq!(l.after_tick(), Action::Exit);
}

#[test]
fn loop_after_frame() {
    let l = LoopState::new(SurfaceSize { width: 640, height: 480 });
    assert_eq!(l.after_frame(Ok(())), Action::Wait);
    assert_eq!(
        l.after_frame(Err(SurfaceFault::Lost)),
        Action::Configure(SurfaceSize { width: 640, height: 480 })
    );
    assert_eq!(l.after_frame(Err(SurfaceFault::OutOfMemory)), Action::Exit);
    assert_eq!(l.after_frame(Err(SurfaceFault::Timeout)), Action::Wait);
}
