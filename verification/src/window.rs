//! The native window: what its messages mean, and how large it is made.
use vstd::prelude::*;
use crate::input_dispatch::InputEvent;
use crate::overlay::Size;

verus! {

/// A point on the screen or in the window.
#[derive(Clone, Copy, Debug, PartialEq, Eq, Structural)]
pub struct Point {
    pub x: i32,
    pub y: i32,
}

/// A rectangle by its edges; right and bottom lie outside.
#[derive(Clone, Copy, Debug, PartialEq, Eq, Structural)]
pub struct Rect {
    pub left: i32,
    pub top: i32,
    pub right: i32,
    pub bottom: i32,
}

impl Rect {
    /// Width and height are at most `i32::MAX`.
    pub open spec fn measurable(self) -> bool {
        &&& i32::MIN <= self.right - self.left <= i32::MAX
        &&& i32::MIN <= self.bottom - self.top <= i32::MAX
    }

    /// Width and height; an inverted rectangle has none.
    pub open spec fn extent(self) -> (int, int) {
        (
            if self.right > self.left {
                self.right - self.left
            } else {
                0
            },
            if self.bottom > self.top {
                self.bottom - self.top
            } else {
                0
            },
        )
    }

    /// Width and height; an inverted rectangle has none.
    pub fn size(&self) -> (r: Size)
        requires
            self.measurable(),
        ensures
            (r.width as int, r.height as int) == self.extent(),
    {
        Size {
            width: if self.right > self.left {
                (self.right - self.left) as u32
            } else {
                0
            },
            height: if self.bottom > self.top {
                (self.bottom - self.top) as u32
            } else {
                0
            },
        }
    }
}

/// A wish for another size of the swap chain.
#[derive(Clone, Copy, Debug, PartialEq, Eq, Structural)]
pub struct ResizeRequest {
    pub width: u32,
    pub height: u32,
}

/// A window message with what has to be asked of the system to understand it.
#[derive(Clone, Debug, PartialEq, Eq)]
pub enum WindowMessage {
    /// The size changed; the client rectangle, if it could be had.
    Size(Option<Rect>),
    Close,
    /// A key went down: its code, the detail word and the control key.
    KeyDown { key: u32, detail: u64, ctrl_held: bool },
    /// The wheel turned: the detail word, and the cursor in the client area.
    MouseWheel { detail: u64, client: Point },
    /// A character was typed.
    Character(u32),
    /// A press outside the client area, at this part of the frame.
    FrameLeftDown { part: u64, cursor: Point },
    /// The mouse moved; where it is, and how far a drag must lead.
    MouseMove { cursor: Point, drag_x: i32, drag_y: i32 },
    LeftDoubleClick,
    LeftUp,
    CaptureChanged,
    FrameRightUp,
    /// A system command: its word.
    SystemCommand(u64),
    EnterSizeMove,
    ExitSizeMove,
    EnterMenuLoop,
    ExitMenuLoop,
    /// A timer fired: its number.
    Timer(u64),
    FilesDropped(Vec<String>),
    Destroy,
    /// Any other message.
    Other,
}

/// What to do about a message, before the answer.
#[derive(Clone, Copy, Debug, PartialEq, Eq, Structural)]
pub enum WindowAction {
    Nothing,
    DestroyWindow,
    CaptureMouse,
    ReleaseMouse,
    StartModalTimer,
    StopModalTimer,
    ModalTick,
    PostQuit,
}

/// How to answer a message.
#[derive(Clone, Copy, Debug, PartialEq, Eq, Structural)]
pub enum WindowAnswer {
    /// It is dealt with.
    Done,
    /// The system deals with it.
    Default,
    /// The system moves the window.
    BeginMove,
}

/// The number of the timer that keeps playback running in modal loops.
pub const MODAL_TICK_TIMER_ID: u64 = 1;

/// The part of the frame that is the caption.
pub const HIT_CAPTION: u64 = 2;

/// The state of the window that its messages change.
#[derive(Debug)]
pub struct WindowState {
    pub is_open: bool,
    pub resize_request: Option<ResizeRequest>,
    pub caption_tracking: bool,
    pub caption_drag_origin: Point,
    pub in_modal_loop: bool,
    pub input_events: Vec<InputEvent>,
}

/// The value of a 16-bit word in two's complement.
pub open spec fn word_value(word: int) -> int {
    if word < 0x8000 {
        word
    } else {
        word - 0x1_0000
    }
}

/// The low word of a detail word.
pub open spec fn low_word(detail: u64) -> int {
    detail as int % 0x1_0000
}

/// The second word of a detail word.
pub open spec fn high_word(detail: u64) -> int {
    (detail as int / 0x1_0000) % 0x1_0000
}

fn signed_word(word: u64) -> (r: i16)
    requires
        word < 0x1_0000,
    ensures
        r == word_value(word as int),
{
    if word < 0x8000 {
        word as i16
    } else {
        (word as i32 - 0x1_0000) as i16
    }
}

/// Where on the screen the cursor was when a message was sent.
pub fn message_point(detail: u64) -> (r: Point)
    ensures
        r.x == word_value(low_word(detail)),
        r.y == word_value(high_word(detail)),
{
    Point {
        x: signed_word(detail % 0x1_0000) as i32,
        y: signed_word((detail / 0x1_0000) % 0x1_0000) as i32,
    }
}

/// Whether the key was down already: the message repeats.
pub open spec fn is_repeat(detail: u64) -> bool {
    (detail as int / 0x4000_0000) % 2 == 1
}

/// How far an arrow key seeks: further while it is held.
pub open spec fn seek_seconds(detail: u64) -> i64 {
    if is_repeat(detail) {
        15
    } else {
        5
    }
}

/// What a key means.
pub open spec fn key_event(key: u32, detail: u64, ctrl_held: bool) -> Option<InputEvent> {
    if key == 0x48 && ctrl_held {
        Some(InputEvent::ToggleBorderlessFullscreen)
    } else if key == 0x52 && ctrl_held {
        Some(InputEvent::RotateClockwise)
    } else if key == 0x52 {
        Some(InputEvent::ToggleAutoReplay)
    } else if key == 0x45 && ctrl_held {
        Some(InputEvent::RotateCounterClockwise)
    } else if key == 0x57 && ctrl_held {
        Some(InputEvent::FitWindow)
    } else if key == 0x51 && ctrl_held {
        Some(InputEvent::HalfSizeWindow)
    } else if key == 0x30 && ctrl_held {
        Some(InputEvent::ResetView)
    } else if key == 0x53 {
        Some(InputEvent::ToggleSubtitles)
    } else if key == 0x25 {
        Some(InputEvent::SeekRelativeSeconds((-seek_seconds(detail)) as i64))
    } else if key == 0x27 {
        Some(InputEvent::SeekRelativeSeconds(seek_seconds(detail)))
    } else {
        None
    }
}

/// What a key means.
pub fn event_for_key(key: u32, detail: u64, ctrl_held: bool) -> (r: Option<InputEvent>)
    ensures
        r == key_event(key, detail, ctrl_held),
{
    let seconds: i64 = if (detail / 0x4000_0000) % 2 == 1 {
        15
    } else {
        5
    };
    if key == 0x48 && ctrl_held {
        Some(InputEvent::ToggleBorderlessFullscreen)
    } else if key == 0x52 && ctrl_held {
        Some(InputEvent::RotateClockwise)
    } else if key == 0x52 {
        Some(InputEvent::ToggleAutoReplay)
    } else if key == 0x45 && ctrl_held {
        Some(InputEvent::RotateCounterClockwise)
    } else if key == 0x57 && ctrl_held {
        Some(InputEvent::FitWindow)
    } else if key == 0x51 && ctrl_held {
        Some(InputEvent::HalfSizeWindow)
    } else if key == 0x30 && ctrl_held {
        Some(InputEvent::ResetView)
    } else if key == 0x53 {
        Some(InputEvent::ToggleSubtitles)
    } else if key == 0x25 {
        Some(InputEvent::SeekRelativeSeconds(-seconds))
    } else if key == 0x27 {
        Some(InputEvent::SeekRelativeSeconds(seconds))
    } else {
        None
    }
}

/// What a turn of the wheel means: zoom with the control key, else volume by
/// one step.
pub open spec fn wheel_event(detail: u64, client: Point) -> Option<InputEvent> {
    let delta = word_value(high_word(detail));
    if (low_word(detail) / 8) % 2 == 1 {
        Some(
            InputEvent::ZoomAtCursor {
                delta: delta as i16,
                cursor_x: client.x,
                cursor_y: client.y,
            },
        )
    } else if delta > 0 {
        Some(InputEvent::AdjustVolumeSteps(1))
    } else if delta < 0 {
        Some(InputEvent::AdjustVolumeSteps(-1i16))
    } else {
        None
    }
}

/// What a turn of the wheel means.
pub fn event_for_wheel(detail: u64, client: Point) -> (r: Option<InputEvent>)
    ensures
        r == wheel_event(detail, client),
{
    let delta: i16 = signed_word((detail / 0x1_0000) % 0x1_0000);
    if ((detail % 0x1_0000) / 8) % 2 == 1 {
        Some(InputEvent::ZoomAtCursor { delta, cursor_x: client.x, cursor_y: client.y })
    } else if delta > 0 {
        Some(InputEvent::AdjustVolumeSteps(1))
    } else if delta < 0 {
        Some(InputEvent::AdjustVolumeSteps(-1))
    } else {
        None
    }
}

/// Whether a system command starts a loop of the system's own.
pub open spec fn is_modal_command(word: u64) -> bool {
    let command = (word as int % 0x1_0000) / 0x10 * 0x10;
    command == 0xF000 || command == 0xF010 || command == 0xF090 || command == 0xF100
}

/// The distance of two coordinates.
pub open spec fn distance(a: i32, b: i32) -> int {
    if a >= b {
        a - b
    } else {
        b - a
    }
}

/// The events after a message that may stand for one.
pub open spec fn noted(events: Seq<InputEvent>, event: Option<InputEvent>) -> Seq<InputEvent> {
    match event {
        Some(e) => events.push(e),
        None => events,
    }
}

/// What a message adds to the user's events.
pub open spec fn message_event(message: WindowMessage) -> Option<InputEvent> {
    match message {
        WindowMessage::KeyDown { key, detail, ctrl_held } => key_event(key, detail, ctrl_held),
        WindowMessage::MouseWheel { detail, client } => wheel_event(detail, client),
        WindowMessage::Character(c) => if c == 0x20 {
            Some(InputEvent::TogglePause)
        } else {
            None
        },
        WindowMessage::LeftDoubleClick => Some(InputEvent::ToggleBorderlessFullscreen),
        _ => None,
    }
}

/// Whether a move of the mouse turns a press on the caption into a drag.
pub open spec fn is_drag(
    tracking: bool,
    origin: Point,
    cursor: Point,
    drag_x: i32,
    drag_y: i32,
) -> bool {
    tracking && (distance(cursor.x, origin.x) > drag_x || distance(cursor.y, origin.y) > drag_y)
}

impl WindowState {
    pub fn new() -> (r: Self)
        ensures
            r.is_open,
            r.resize_request is None,
            !r.caption_tracking,
            r.caption_drag_origin == (Point { x: 0, y: 0 }),
            !r.in_modal_loop,
            r.input_events@.len() == 0,
    {
        WindowState {
            is_open: true,
            resize_request: None,
            caption_tracking: false,
            caption_drag_origin: Point { x: 0, y: 0 },
            in_modal_loop: false,
            input_events: Vec::new(),
        }
    }

    /// Whether the window is open after a message.
    pub open spec fn open_after(self, message: WindowMessage) -> bool {
        self.is_open && !(message is Close) && !(message is Destroy)
    }

    /// The wish for another size after a message.
    pub open spec fn resize_after(self, message: WindowMessage) -> Option<ResizeRequest> {
        match message {
            WindowMessage::Size(Some(rect)) => Some(
                ResizeRequest { width: rect.extent().0 as u32, height: rect.extent().1 as u32 },
            ),
            _ => self.resize_request,
        }
    }

    /// Whether a press on the caption is being followed after a message.
    pub open spec fn tracking_after(self, message: WindowMessage) -> bool {
        match message {
            WindowMessage::FrameLeftDown { part, .. } => self.caption_tracking || part
                == HIT_CAPTION,
            WindowMessage::MouseMove { cursor, drag_x, drag_y } => self.caption_tracking
                && !is_drag(true, self.caption_drag_origin, cursor, drag_x, drag_y),
            WindowMessage::LeftDoubleClick => false,
            WindowMessage::LeftUp => false,
            WindowMessage::CaptureChanged => false,
            _ => self.caption_tracking,
        }
    }

    /// Where the press that is followed began, after a message.
    pub open spec fn origin_after(self, message: WindowMessage) -> Point {
        match message {
            WindowMessage::FrameLeftDown { part, cursor } if part == HIT_CAPTION => cursor,
            _ => self.caption_drag_origin,
        }
    }

    /// Whether the system runs a loop of its own after a message.
    pub open spec fn modal_after(self, message: WindowMessage) -> bool {
        match message {
            WindowMessage::SystemCommand(word) => self.in_modal_loop || is_modal_command(word),
            WindowMessage::EnterSizeMove => true,
            WindowMessage::EnterMenuLoop => true,
            WindowMessage::ExitSizeMove => false,
            WindowMessage::ExitMenuLoop => false,
            _ => self.in_modal_loop,
        }
    }

    /// What to do about a message.
    pub open spec fn action_for(self, message: WindowMessage) -> WindowAction {
        match message {
            WindowMessage::Close => WindowAction::DestroyWindow,
            WindowMessage::FrameLeftDown { part, .. } if part == HIT_CAPTION =>
                WindowAction::CaptureMouse,
            WindowMessage::MouseMove { cursor, drag_x, drag_y } if is_drag(
                self.caption_tracking,
                self.caption_drag_origin,
                cursor,
                drag_x,
                drag_y,
            ) => WindowAction::ReleaseMouse,
            WindowMessage::LeftDoubleClick if self.caption_tracking => WindowAction::ReleaseMouse,
            WindowMessage::LeftUp if self.caption_tracking => WindowAction::ReleaseMouse,
            WindowMessage::FrameRightUp => WindowAction::StartModalTimer,
            WindowMessage::SystemCommand(word) if is_modal_command(word) =>
                WindowAction::StartModalTimer,
            WindowMessage::EnterSizeMove => WindowAction::StartModalTimer,
            WindowMessage::EnterMenuLoop => WindowAction::StartModalTimer,
            WindowMessage::ExitSizeMove => WindowAction::StopModalTimer,
            WindowMessage::ExitMenuLoop => WindowAction::StopModalTimer,
            WindowMessage::Timer(id) if id == MODAL_TICK_TIMER_ID => WindowAction::ModalTick,
            WindowMessage::Destroy => WindowAction::PostQuit,
            _ => WindowAction::Nothing,
        }
    }

    /// How to answer a message.
    pub open spec fn answer_to(self, message: WindowMessage) -> WindowAnswer {
        match message {
            WindowMessage::Size(_) => WindowAnswer::Default,
            WindowMessage::Character(c) => if c == 0x20 {
                WindowAnswer::Done
            } else {
                WindowAnswer::Default
            },
            WindowMessage::FrameLeftDown { part, .. } => if part == HIT_CAPTION {
                WindowAnswer::Done
            } else {
                WindowAnswer::Default
            },
            WindowMessage::MouseMove { cursor, drag_x, drag_y } => if is_drag(
                self.caption_tracking,
                self.caption_drag_origin,
                cursor,
                drag_x,
                drag_y,
            ) {
                WindowAnswer::BeginMove
            } else {
                WindowAnswer::Done
            },
            WindowMessage::FrameRightUp => WindowAnswer::Default,
            WindowMessage::SystemCommand(_) => WindowAnswer::Default,
            WindowMessage::Other => WindowAnswer::Default,
            _ => WindowAnswer::Done,
        }
    }

    fn push_event(&mut self, event: Option<InputEvent>)
        ensures
            final(self).is_open == old(self).is_open,
            final(self).resize_request == old(self).resize_request,
            final(self).caption_tracking == old(self).caption_tracking,
            final(self).caption_drag_origin == old(self).caption_drag_origin,
            final(self).in_modal_loop == old(self).in_modal_loop,
            final(self).input_events@ == noted(old(self).input_events@, event),
    {
        if let Some(e) = event {
            self.input_events.push(e);
        }
    }

    /// Takes up a message: changes the state, notes what the user did, and says
    /// what to do and how to answer.
    pub fn window_proc(&mut self, message: WindowMessage) -> (r: (WindowAction, WindowAnswer))
        requires
            message matches WindowMessage::Size(Some(rect)) ==> rect.measurable(),
        ensures
            r.0 == old(self).action_for(message),
            r.1 == old(self).answer_to(message),
            final(self).is_open == old(self).open_after(message),
            final(self).resize_request == old(self).resize_after(message),
            final(self).caption_tracking == old(self).tracking_after(message),
            final(self).caption_drag_origin == old(self).origin_after(message),
            final(self).in_modal_loop == old(self).modal_after(message),
            match message {
                WindowMessage::FilesDropped(paths) => if paths@.len() > 0 {
                    &&& final(self).input_events@.len() == old(self).input_events@.len() + 1
                    &&& final(self).input_events@.drop_last() == old(self).input_events@
                    &&& final(self).input_events@.last() matches InputEvent::FilesDropped(first)
                        && first@.len() == 1 && first@[0]@ == paths@[0]@
                } else {
                    final(self).input_events@ == old(self).input_events@
                },
                _ => final(self).input_events@ == noted(
                    old(self).input_events@,
                    message_event(message),
                ),
            },
    {
        match message {
            WindowMessage::Size(rect) => {
                if let Some(client) = rect {
                    let size = client.size();
                    self.resize_request = Some(
                        ResizeRequest { width: size.width, height: size.height },
                    );
                }
                (WindowAction::Nothing, WindowAnswer::Default)
            },
            WindowMessage::Close => {
                self.is_open = false;
                (WindowAction::DestroyWindow, WindowAnswer::Done)
            },
            WindowMessage::KeyDown { key, detail, ctrl_held } => {
                self.push_event(event_for_key(key, detail, ctrl_held));
                (WindowAction::Nothing, WindowAnswer::Done)
            },
            WindowMessage::MouseWheel { detail, client } => {
                self.push_event(event_for_wheel(detail, client));
                (WindowAction::Nothing, WindowAnswer::Done)
            },
            WindowMessage::Character(c) => {
                if c == 0x20 {
                    self.input_events.push(InputEvent::TogglePause);
                    return (WindowAction::Nothing, WindowAnswer::Done);
                }
                (WindowAction::Nothing, WindowAnswer::Default)
            },
            WindowMessage::FrameLeftDown { part, cursor } => {
                if part == HIT_CAPTION {
                    self.caption_tracking = true;
                    self.caption_drag_origin = cursor;
                    return (WindowAction::CaptureMouse, WindowAnswer::Done);
                }
                (WindowAction::Nothing, WindowAnswer::Default)
            },
            WindowMessage::MouseMove { cursor, drag_x, drag_y } => {
                if self.caption_tracking {
                    let origin = self.caption_drag_origin;
                    if is_further(cursor.x, origin.x, drag_x) || is_further(
                        cursor.y,
                        origin.y,
                        drag_y,
                    ) {
                        self.caption_tracking = false;
                        return (WindowAction::ReleaseMouse, WindowAnswer::BeginMove);
                    }
                }
                (WindowAction::Nothing, WindowAnswer::Done)
            },
            WindowMessage::LeftDoubleClick => {
                let followed = self.caption_tracking;
                self.caption_tracking = false;
                self.input_events.push(InputEvent::ToggleBorderlessFullscreen);
                (release_if(followed), WindowAnswer::Done)
            },
            WindowMessage::LeftUp => {
                let followed = self.caption_tracking;
                self.caption_tracking = false;
                (release_if(followed), WindowAnswer::Done)
            },
            WindowMessage::CaptureChanged => {
                self.caption_tracking = false;
                (WindowAction::Nothing, WindowAnswer::Done)
            },
            WindowMessage::FrameRightUp => (WindowAction::StartModalTimer, WindowAnswer::Default),
            WindowMessage::SystemCommand(word) => {
                let command: u64 = (word % 0x1_0000) / 0x10 * 0x10;
                if command == 0xF000 || command == 0xF010 || command == 0xF090 || command
                    == 0xF100 {
                    self.in_modal_loop = true;
                    return (WindowAction::StartModalTimer, WindowAnswer::Default);
                }
                (WindowAction::Nothing, WindowAnswer::Default)
            },
            WindowMessage::EnterSizeMove | WindowMessage::EnterMenuLoop => {
                self.in_modal_loop = true;
                (WindowAction::StartModalTimer, WindowAnswer::Done)
            },
            WindowMessage::ExitSizeMove | WindowMessage::ExitMenuLoop => {
                self.in_modal_loop = false;
                (WindowAction::StopModalTimer, WindowAnswer::Done)
            },
            WindowMessage::Timer(id) => {
                if id == MODAL_TICK_TIMER_ID {
                    (WindowAction::ModalTick, WindowAnswer::Done)
                } else {
                    (WindowAction::Nothing, WindowAnswer::Done)
                }
            },
            WindowMessage::FilesDropped(paths) => {
                if paths.len() > 0 {
                    let mut first: Vec<String> = Vec::new();
                    first.push(paths[0].clone());
                    self.input_events.push(InputEvent::FilesDropped(first));
                    proof {
                        assert(self.input_events@.drop_last() =~= old(self).input_events@);
                    }
                }
                (WindowAction::Nothing, WindowAnswer::Done)
            },
            WindowMessage::Destroy => {
                self.is_open = false;
                (WindowAction::PostQuit, WindowAnswer::Done)
            },
            WindowMessage::Other => (WindowAction::Nothing, WindowAnswer::Default),
        }
    }

    /// Takes the wish for another size.
    pub fn take_resize_request(&mut self) -> (r: Option<ResizeRequest>)
        ensures
            r == old(self).resize_request,
            final(self).resize_request is None,
            final(self).is_open == old(self).is_open,
            final(self).caption_tracking == old(self).caption_tracking,
            final(self).caption_drag_origin == old(self).caption_drag_origin,
            final(self).in_modal_loop == old(self).in_modal_loop,
            final(self).input_events@ == old(self).input_events@,
    {
        let request = self.resize_request;
        self.resize_request = None;
        request
    }
}

fn is_further(a: i32, b: i32, limit: i32) -> (r: bool)
    ensures
        r == (distance(a, b) > limit),
{
    let d: i64 = if a >= b {
        a as i64 - b as i64
    } else {
        b as i64 - a as i64
    };
    d > limit as i64
}

fn release_if(followed: bool) -> (r: WindowAction)
    ensures
        r == (if followed {
            WindowAction::ReleaseMouse
        } else {
            WindowAction::Nothing
        }),
{
    if followed {
        WindowAction::ReleaseMouse
    } else {
        WindowAction::Nothing
    }
}

/// The arrow keys seek: left back and right forward, five seconds for a press and
/// fifteen while the key is held.
pub proof fn arrow_keys_seek(detail: u64, ctrl_held: bool)
    ensures
        ({
            let held = (detail as int / 0x4000_0000) % 2 == 1;
            let far: i64 = if held {
                15
            } else {
                5
            };
            &&& key_event(0x27, detail, ctrl_held) == Some(InputEvent::SeekRelativeSeconds(far))
            &&& key_event(0x25, detail, ctrl_held) == Some(
                InputEvent::SeekRelativeSeconds((-far) as i64),
            )
        }),
{
}

/// With the control key, H switches the whole screen, R turns clockwise and E the other
/// way, W and Q size the window, and 0 resets the view; without it only R and S mean
/// something.
pub proof fn letter_keys_mean_what_they_say(key: u32, detail: u64)
    ensures
        key_event(0x48, detail, true) == Some(InputEvent::ToggleBorderlessFullscreen),
        key_event(0x52, detail, true) == Some(InputEvent::RotateClockwise),
        key_event(0x45, detail, true) == Some(InputEvent::RotateCounterClockwise),
        key_event(0x57, detail, true) == Some(InputEvent::FitWindow),
        key_event(0x51, detail, true) == Some(InputEvent::HalfSizeWindow),
        key_event(0x30, detail, true) == Some(InputEvent::ResetView),
        key_event(0x52, detail, false) == Some(InputEvent::ToggleAutoReplay),
        key_event(0x53, detail, false) == Some(InputEvent::ToggleSubtitles),
        key != 0x52 && key != 0x53 && key != 0x25 && key != 0x27 ==> key_event(key, detail, false)
            is None,
{
}

/// The wheel changes the volume by one step, up when it turns away from the user and
/// down when it turns towards them; with the control key it zooms at the cursor.
pub proof fn wheel_changes_the_volume_or_zooms(detail: u64, client: Point)
    ensures
        ({
            let turned = (detail as int / 0x1_0000) % 0x1_0000;
            let ctrl = (detail as int % 0x1_0000 / 8) % 2 == 1;
            let event = wheel_event(detail, client);
            &&& (!ctrl && 0 < turned < 0x8000 ==> event == Some(InputEvent::AdjustVolumeSteps(1)))
            &&& (!ctrl && turned >= 0x8000 ==> event == Some(
                InputEvent::AdjustVolumeSteps(-1i16),
            ))
            &&& (!ctrl && turned == 0 ==> event is None)
            &&& (ctrl ==> (event matches Some(InputEvent::ZoomAtCursor {
                delta,
                cursor_x,
                cursor_y,
            }) && cursor_x == client.x && cursor_y == client.y && (turned < 0x8000 ==> delta
                == turned) && (turned >= 0x8000 ==> delta == turned - 0x1_0000)))
        }),
{
}

/// The space bar pauses, and a double click switches the whole screen; other
/// characters mean nothing.
pub proof fn space_and_double_click(c: u32)
    ensures
        message_event(WindowMessage::Character(0x20)) == Some(InputEvent::TogglePause),
        c != 0x20 ==> message_event(WindowMessage::Character(c)) is None,
        message_event(WindowMessage::LeftDoubleClick) == Some(
            InputEvent::ToggleBorderlessFullscreen,
        ),
        message_event(WindowMessage::Close) is None,
        message_event(WindowMessage::LeftUp) is None,
{
}

/// A window that is closed is destroyed, and once that is done the program is told to
/// quit; nothing else closes it, and nothing opens it again.
pub proof fn only_closing_closes_the_window(w: WindowState, message: WindowMessage)
    ensures
        w.open_after(message) <==> w.is_open && !(message is Close) && !(message is Destroy),
        w.action_for(WindowMessage::Close) == WindowAction::DestroyWindow,
        w.action_for(WindowMessage::Destroy) == WindowAction::PostQuit,
        w.action_for(message) == WindowAction::DestroyWindow ==> message is Close,
        w.action_for(message) == WindowAction::PostQuit ==> message is Destroy,
{
}

/// A press on the caption is followed from where it was made until the mouse has gone
/// further than a click allows, the button goes up, or the mouse is lost. Only the first
/// of these moves the window.
pub proof fn press_on_the_caption_becomes_a_drag(
    w: WindowState,
    cursor: Point,
    drag_x: i32,
    drag_y: i32,
)
    ensures
        ({
            let press = WindowMessage::FrameLeftDown { part: HIT_CAPTION, cursor };
            let moved = WindowMessage::MouseMove { cursor, drag_x, drag_y };
            let dx = cursor.x - w.caption_drag_origin.x;
            let dy = cursor.y - w.caption_drag_origin.y;
            let far = dx > drag_x || -dx > drag_x || dy > drag_y || -dy > drag_y;
            &&& w.tracking_after(press)
            &&& w.origin_after(press) == cursor
            &&& w.action_for(press) == WindowAction::CaptureMouse
            &&& (w.answer_to(moved) == WindowAnswer::BeginMove <==> w.caption_tracking && far)
            &&& (w.tracking_after(moved) <==> w.caption_tracking && !far)
            &&& w.origin_after(moved) == w.caption_drag_origin
            &&& !w.tracking_after(WindowMessage::LeftUp)
            &&& !w.tracking_after(WindowMessage::CaptureChanged)
            &&& !w.tracking_after(WindowMessage::LeftDoubleClick)
            &&& w.answer_to(WindowMessage::LeftUp) != WindowAnswer::BeginMove
            &&& (w.caption_tracking ==> w.action_for(WindowMessage::LeftUp)
                == WindowAction::ReleaseMouse)
        }),
{
}

/// While the system runs a loop of its own, a timer keeps the player going: it starts
/// with the loop, ends with it, and each time it fires the player takes a step.
pub proof fn player_goes_on_in_loops_of_the_system(w: WindowState, message: WindowMessage)
    ensures
        w.modal_after(WindowMessage::EnterSizeMove),
        w.modal_after(WindowMessage::EnterMenuLoop),
        !w.modal_after(WindowMessage::ExitSizeMove),
        !w.modal_after(WindowMessage::ExitMenuLoop),
        w.action_for(WindowMessage::EnterSizeMove) == WindowAction::StartModalTimer,
        w.action_for(WindowMessage::EnterMenuLoop) == WindowAction::StartModalTimer,
        w.action_for(WindowMessage::ExitSizeMove) == WindowAction::StopModalTimer,
        w.action_for(WindowMessage::ExitMenuLoop) == WindowAction::StopModalTimer,
        w.action_for(WindowMessage::Timer(MODAL_TICK_TIMER_ID)) == WindowAction::ModalTick,
        w.action_for(message) == WindowAction::ModalTick ==> message is Timer,
{
}

/// A new size is asked for as the size of the client area; no other message asks for
/// one or takes a wish back.
pub proof fn new_size_is_that_of_the_client_area(w: WindowState, rect: Rect, message: WindowMessage)
    requires
        rect.left <= rect.right,
        rect.top <= rect.bottom,
        rect.measurable(),
    ensures
        w.resize_after(WindowMessage::Size(Some(rect))) == Some(
            ResizeRequest {
                width: (rect.right - rect.left) as u32,
                height: (rect.bottom - rect.top) as u32,
            },
        ),
        !(message is Size) ==> w.resize_after(message) == w.resize_request,
{
}

/// A press on the caption is followed until it becomes a drag, is let go or is taken
/// away; the mouse is captured while it is followed and freed at its end.
pub proof fn followed_press_ends_with_the_mouse_freed(w: WindowState, cursor: Point)
    requires
        w.caption_tracking,
    ensures
        !w.tracking_after(WindowMessage::LeftUp),
        w.action_for(WindowMessage::LeftUp) == WindowAction::ReleaseMouse,
        !w.tracking_after(WindowMessage::LeftDoubleClick),
        w.action_for(WindowMessage::LeftDoubleClick) == WindowAction::ReleaseMouse,
        !w.tracking_after(WindowMessage::CaptureChanged),
        w.action_for(WindowMessage::CaptureChanged) == WindowAction::Nothing,
        w.action_for(WindowMessage::FrameLeftDown { part: 2, cursor })
            == WindowAction::CaptureMouse,
        w.origin_after(WindowMessage::FrameLeftDown { part: 2, cursor }) == cursor,
{
}

/// What the window handles itself is not handled again by the system; its size, the
/// menu, system commands and whatever it does not know are left to the system.
pub proof fn system_answers_what_the_window_leaves(w: WindowState, c: u32, word: u64)
    ensures
        w.answer_to(WindowMessage::Other) == WindowAnswer::Default,
        w.answer_to(WindowMessage::Size(None)) == WindowAnswer::Default,
        w.answer_to(WindowMessage::FrameRightUp) == WindowAnswer::Default,
        w.answer_to(WindowMessage::SystemCommand(word)) == WindowAnswer::Default,
        w.answer_to(WindowMessage::Close) == WindowAnswer::Done,
        w.answer_to(WindowMessage::Destroy) == WindowAnswer::Done,
        w.answer_to(WindowMessage::LeftUp) == WindowAnswer::Done,
        c == 32 ==> w.answer_to(WindowMessage::Character(c)) == WindowAnswer::Done,
        c != 32 ==> w.answer_to(WindowMessage::Character(c)) == WindowAnswer::Default,
        w.action_for(WindowMessage::Close) == WindowAction::DestroyWindow,
        w.action_for(WindowMessage::Destroy) == WindowAction::PostQuit,
        w.action_for(WindowMessage::Other) == WindowAction::Nothing,
{
}

/// The words of a detail word count from their lowest bit, and above the half they
/// stand for negative numbers.
pub proof fn words_make_up_the_detail(low: int, high: int)
    requires
        0 <= low < 0x1_0000,
        0 <= high < 0x1_0000,
    ensures
        ({
            let detail = (0x1_0000 * high + low) as u64;
            &&& low_word(detail) == low
            &&& high_word(detail) == high
            &&& is_repeat(detail) <==> (high / 0x4000) % 2 == 1
        }),
        low < 0x8000 ==> word_value(low) == low,
        low >= 0x8000 ==> word_value(low) == low - 0x1_0000,
{
    let detail = (0x1_0000 * high + low) as u64;
    assert(detail as int / 0x1_0000 == high);
    assert(detail as int / 0x4000_0000 == high / 0x4000);
}

/// A message that stands for an event adds it behind those before; any other adds
/// none.
pub proof fn events_are_noted_in_order(events: Seq<InputEvent>, event: InputEvent)
    ensures
        noted(events, Some(event)) == events.push(event),
        noted(events, None) == events,
{
}

/// A key without the control key does not turn the picture or change the window, and
/// a longer press seeks three times as far.
pub proof fn control_key_tells_keys_apart(detail: u64)
    ensures
        key_event(0x48, detail, false) is None,
        key_event(0x45, detail, false) is None,
        key_event(0x57, detail, false) is None,
        key_event(0x51, detail, false) is None,
        key_event(0x30, detail, false) is None,
        key_event(0x52, detail, false) == Some(InputEvent::ToggleAutoReplay),
        key_event(0x52, detail, true) == Some(InputEvent::RotateClockwise),
        key_event(0x45, detail, true) == Some(InputEvent::RotateCounterClockwise),
        is_repeat(detail) ==> seek_seconds(detail) == 15,
        !is_repeat(detail) ==> seek_seconds(detail) == 5,
{
}

} // verus!
