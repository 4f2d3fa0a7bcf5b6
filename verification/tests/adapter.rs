use gfx_window_sdl2::{create, init, FrameBuffer, Window, COLOR, DEPTH, MASK_ALL, MAIN_FRAME_BUFFER, STENCIL};

#[test]
fn scenario_800_by_600() {
    let window = Window::new(1, 800, 600, true);
    let (mut stream, _device, _factory) = init(window);
    assert_eq!(stream.out.get_size(), (800, 600));
    assert_eq!(stream.out.get_mask(), MASK_ALL);
    stream.out.swap_buffers();
    stream.out.window.set_drawable_size(1024, 768);
    assert_eq!(stream.out.get_size(), (1024, 768));
}

#[test]
fn mask_is_always_full() {
    let window = Window::new(2, 640, 480, true);
    let (mut stream, _device, _factory) = init(window);
    let mask = stream.out.get_mask();
    assert_eq!(mask, COLOR | DEPTH | STENCIL);
    assert_eq!(mask, 7);
    assert!(mask & COLOR != 0);
    assert!(mask & DEPTH != 0);
    assert!(mask & STENCIL != 0);
    stream.out.window.set_drawable_size(0, 0);
    assert_eq!(stream.out.get_mask(), MASK_ALL);
}

#[test]
fn target_is_always_present() {
    let window = Window::new(3, 320, 200, true);
    let (stream, _device, _factory) = init(window);
    let handle = stream.out.get_handle();
    assert!(handle.is_some());
    assert_eq!(*handle.unwrap(), FrameBuffer { raw: MAIN_FRAME_BUFFER });
}

#[test]
fn size_is_read_live() {
    let window = Window::new(4, 100, 50, true);
    let (mut stream, _device, _factory) = init(window);
    assert_eq!(stream.out.get_size(), (100, 50));
    stream.out.window.set_drawable_size(1920, 1080);
    assert_eq!(stream.out.get_size(), (1920, 1080));
    stream.out.window.set_drawable_size(1, 2);
    assert_eq!(stream.out.get_size(), (1, 2));
}

#[test]
fn size_is_truncated_to_16_bits() {
    let window = Window::new(5, 70000, 65536, true);
    let (stream, _device, _factory) = init(window);
    assert_eq!(stream.out.get_size(), (4464, 0));
}

#[test]
fn context_creation_follows_support() {
    let unsupported = Window::new(6, 800, 600, false);
    assert!(unsupported.gl_create_context().is_none());
    let supported = Window::new(7, 800, 600, true);
    assert!(supported.gl_create_context().is_some());
}

#[test]
fn swap_changes_nothing_observable() {
    let window = Window::new(8, 512, 256, true);
    let (mut stream, _device, _factory) = init(window);
    stream.out.swap_buffers();
    stream.out.swap_buffers();
    assert_eq!(stream.out.get_size(), (512, 256));
    assert_eq!(stream.out.get_mask(), MASK_ALL);
    assert!(stream.out.get_handle().is_some());
}

#[test]
fn factory_hands_out_the_main_frame_buffer() {
    let (_device, mut factory) = create();
    let frame = factory.get_main_frame_buffer();
    assert_eq!(frame.raw, MAIN_FRAME_BUFFER);
    let frame_again = factory.get_main_frame_buffer();
    assert_eq!(frame, frame_again);
}
