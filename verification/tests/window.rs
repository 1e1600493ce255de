use fastplay::input_dispatch::InputEvent;
use fastplay::overlay::Size;
use fastplay::session_model::PresentResult;
use fastplay::window::{
    event_for_key, event_for_wheel, message_point, Point, Rect, ResizeRequest, WindowAction,
    WindowAnswer, WindowMessage, WindowState, HIT_CAPTION, MODAL_TICK_TIMER_ID,
};
use fastplay::window_size::{
    classify_present, cursor_inside, fill_height, fill_width, fit_within, place_for_content, place_resized,
    FrameState, FrameStep, WindowPlacement, STYLE_OVERLAPPED, STYLE_POPUP,
};

#[test]
fn a_size_message_asks_for_a_resize_once() {
    let mut w = WindowState::new();
    w.window_proc(WindowMessage::Size(Some(Rect {
        left: 0,
        top: 0,
        right: 640,
        bottom: 480,
    })));
    assert_eq!(
        w.take_resize_request(),
        Some(ResizeRequest {
            width: 640,
            height: 480
        })
    );
    assert_eq!(w.take_resize_request(), None);
}

#[test]
fn closing_ends_in_a_quit_message() {
    let mut w = WindowState::new();
    assert!(w.is_open);
    assert_eq!(w.caption_drag_origin, Point { x: 0, y: 0 });
    let (action, _) = w.window_proc(WindowMessage::Close);
    assert_eq!(action, WindowAction::DestroyWindow);
    let (action, _) = w.window_proc(WindowMessage::Destroy);
    assert_eq!(action, WindowAction::PostQuit);
    assert!(!w.is_open);
}

#[test]
fn modal_loops_keep_a_timer() {
    let mut w = WindowState::new();
    assert_eq!(
        w.window_proc(WindowMessage::EnterSizeMove).0,
        WindowAction::StartModalTimer
    );
    assert!(w.in_modal_loop);
    assert_eq!(
        w.window_proc(WindowMessage::Timer(MODAL_TICK_TIMER_ID)).0,
        WindowAction::ModalTick
    );
    assert_eq!(
        w.window_proc(WindowMessage::Timer(MODAL_TICK_TIMER_ID + 1)).0,
        WindowAction::Nothing
    );
    assert_eq!(
        w.window_proc(WindowMessage::ExitSizeMove).0,
        WindowAction::StopModalTimer
    );
    assert!(!w.in_modal_loop);
}

#[test]
fn the_caption_moves_the_window_only_after_a_drag() {
    let mut w = WindowState::new();
    let press = Point { x: 100, y: 10 };
    assert_eq!(
        w.window_proc(WindowMessage::FrameLeftDown {
            part: HIT_CAPTION,
            cursor: press
        }),
        (WindowAction::CaptureMouse, WindowAnswer::Done)
    );
    let near = w.window_proc(WindowMessage::MouseMove {
        cursor: Point { x: 101, y: 10 },
        drag_x: 4,
        drag_y: 4,
    });
    assert_ne!(near.1, WindowAnswer::BeginMove);
    let far = w.window_proc(WindowMessage::MouseMove {
        cursor: Point { x: 110, y: 10 },
        drag_x: 4,
        drag_y: 4,
    });
    assert_eq!(far.1, WindowAnswer::BeginMove);
    assert!(!w.caption_tracking);
}

#[test]
fn keys_and_wheel_become_events() {
    assert_eq!(event_for_key(0x52, 0, true), Some(InputEvent::RotateClockwise));
    assert_eq!(event_for_key(0x52, 0, false), Some(InputEvent::ToggleAutoReplay));
    assert_eq!(event_for_key(0xff, 0, false), None);
    let turn = 120u64 << 16;
    let client = Point { x: 3, y: 4 };
    assert!(event_for_wheel(turn, client).is_some());
    assert_eq!(event_for_wheel(0, client), None);
    assert_eq!(message_point(0xffff_0005), Point { x: 5, y: -1 });
}

#[test]
fn windows_fit_the_screen() {
    let size = |width, height| Size { width, height };
    let area = size(1680, 1010);
    assert_eq!(fit_within(size(1080, 1920), area, size(568, 1009)), size(568, 1009));
    assert_eq!(fit_within(size(320, 200), area, size(1, 1)), size(320, 200));
    let max = size(1920, 1000);
    assert_eq!(fill_width(1600, max), 1600);
    assert_eq!(fill_height(1600, 7, max), size(1600, 1000));
    assert_eq!(fill_width(30_000, max), 1920);
    assert_eq!(fill_height(30_000, 64, max), size(1920, 64));
    assert_eq!(fill_height(30_000, 0, max), size(1920, 1));
    assert_eq!(fill_height(0, 9, max), size(1, 1000));
    let work = Rect {
        left: 0,
        top: 0,
        right: 1920,
        bottom: 1040,
    };
    assert_eq!(
        place_for_content(work, size(920, 540), true),
        WindowPlacement {
            origin: Some(Point { x: 500, y: 250 }),
            width: 920,
            height: 540
        }
    );
    let old = Rect {
        left: 1800,
        top: 1000,
        right: 1900,
        bottom: 1040,
    };
    assert_eq!(
        place_resized(old, work, 400, 300).origin,
        Some(Point { x: 1520, y: 740 })
    );
    assert_eq!(
        cursor_inside(Point { x: 5, y: 5 }, size(6, 6)),
        Some(Point { x: 5, y: 5 })
    );
    assert_eq!(cursor_inside(Point { x: 6, y: 5 }, size(6, 6)), None);
}

#[test]
fn present_status_is_classified() {
    assert_eq!(classify_present(0), Some(PresentResult::Shown));
    assert_eq!(classify_present(0x087A_0001), Some(PresentResult::Occluded));
    assert_eq!(
        classify_present(0x887A_0005u32 as i32),
        Some(PresentResult::DeviceLost)
    );
    assert_eq!(
        classify_present(0x887A_0007u32 as i32),
        Some(PresentResult::DeviceLost)
    );
    assert_eq!(classify_present(0x8000_4005u32 as i32), None);
}

#[test]
fn the_whole_screen_and_back() {
    let mut frame = FrameState::new();
    let style = STYLE_OVERLAPPED | 0x1000_0000;
    assert_eq!(
        frame.toggle_borderless_fullscreen(style),
        FrameStep::FillScreen(STYLE_POPUP | 0x1000_0000)
    );
    assert!(frame.is_borderless);
    assert_eq!(
        frame.toggle_borderless_fullscreen(STYLE_POPUP),
        FrameStep::Restore(style)
    );
    assert!(!frame.is_borderless);
}
