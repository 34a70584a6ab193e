//! Matching of input events to actions, and the modes that interpret them.

use crate::event::{Button, InputEvent, Key, WindowChange, LSHIFT_MOD, RSHIFT_MOD};
use vstd::prelude::*;

verus! {

/// Action represents the possible actions that could result from an event
#[derive(Clone, Copy, Debug)]
pub enum Action<'a> {
    /// The app should quit
    Quit,
    /// Toggle fullscreen state
    ToggleFullscreen,
    /// The app should re-render (for instance after a window resize)
    ReRender,
    /// The user hit backspace; pending input should be truncated
    Backspace,
    /// The user entered input from the keyboard
    KeyboardInput(&'a str),
    /// Switch back to normal mode
    SwitchNormalMode,
    /// Switch to multi-normal mode, where a repeat count is entered
    SwitchMultiNormalMode,
    /// Switch between fitting the image to the screen and its actual size
    ToggleFit,
    /// Centre the image
    CenterImage,
    /// Flip the image horizontally
    FlipHorizontal,
    /// Flip the image vertically
    FlipVertical,
    /// Move to the next image
    Next,
    /// Move to the previous image
    Prev,
    /// Move to the first image
    First,
    /// Move to the last image
    Last,
    /// Advance through the list of images by a fraction of its length
    SkipForward,
    /// Rewind through the list of images by a fraction of its length
    SkipBack,
    /// Zoom in or out
    Zoom(ZoomAction),
    /// Rotate the image
    Rotate(RotationDirection),
    /// Pan the image
    Pan(PanAction),
    /// Copy the image
    Copy,
    /// Enter a command
    Cmd,
    /// Move the image
    Move,
    /// Delete the image
    Delete,
    /// Move the image to the trash
    Trash,
    /// Do not respond
    Noop,
    /// Repeat the last action
    RepeatLastAction,
    /// Toggle the info bar
    ToggleInfobar,
    /// Toggle the help screen
    ToggleHelp,
    /// A digit of a repeat count
    Digit(usize),
}

/// Direction to rotate the image
#[derive(Clone, Copy, Debug, PartialEq, Eq, Structural)]
pub enum RotationDirection {
    /// Rotate clockwise
    Clockwise,
    /// Rotate counterclockwise
    CounterClockwise,
}

/// Zoom in or out
#[derive(Clone, Copy, Debug, PartialEq, Eq, Structural)]
pub enum ZoomAction {
    In,
    Out,
}

/// Direction to pan the image
#[derive(Clone, Copy, Debug, PartialEq, Eq, Structural)]
pub enum PanAction {
    Left,
    Right,
    Up,
    Down,
}

/// Perform an action `times` times
#[derive(Clone, Copy, Debug)]
pub struct ProcessAction<'a> {
    /// The action to perform
    pub action: Action<'a>,
    /// How many times to perform it
    pub times: usize,
}

/// What to do next while a repeat count is being entered
#[derive(Clone, Copy, Debug)]
pub enum MultiNormalAction<'a> {
    /// Re-render the screen
    ReRender,
    /// Keep listening for input; show the count entered so far
    MoreInput,
    /// The count is complete: perform the action that many times
    Repeat(ProcessAction<'a>),
    /// Switch back to normal mode
    SwitchBackNormalMode,
    /// Abandon the count and switch back to normal mode
    Cancel,
    /// Quit the program
    Quit,
    /// Do not respond
    Noop,
}

/// Modal setting of the program: decides how input is interpreted
#[derive(Clone, Debug, PartialEq)]
pub enum Mode {
    /// Default mode: traverse, move, copy and remove images
    Normal,
    /// A repeat count for the next action is being entered
    MultiNormal,
    /// An error message is shown in the info bar
    Error(String),
    /// A success message is shown in the info bar
    Success(String),
    /// Terminal: no further events are processed
    Exit,
}

/// Which help message to render
#[derive(Clone, Copy, Debug, PartialEq, Eq, Structural)]
pub enum HelpRender {
    /// No help is rendered
    Hidden,
    /// The normal mode help is rendered
    Normal,
}

/// Rotation angle of the image, in steps of 90 degrees
#[derive(Clone, Copy, Debug, PartialEq, Eq, Structural)]
pub enum RotAngle {
    /// 0 degrees
    Up,
    /// 90 degrees
    Right,
    /// 180 degrees
    Down,
    /// 270 degrees
    Left,
}

/// One clockwise quarter turn.
pub open spec fn rot_cw(r: RotAngle) -> RotAngle {
    match r {
        RotAngle::Up => RotAngle::Right,
        RotAngle::Right => RotAngle::Down,
        RotAngle::Down => RotAngle::Left,
        RotAngle::Left => RotAngle::Up,
    }
}

/// One counterclockwise quarter turn.
pub open spec fn rot_ccw(r: RotAngle) -> RotAngle {
    match r {
        RotAngle::Up => RotAngle::Left,
        RotAngle::Left => RotAngle::Down,
        RotAngle::Down => RotAngle::Right,
        RotAngle::Right => RotAngle::Up,
    }
}

impl RotAngle {
    /// Next state of rotation when rotated clockwise
    pub fn rot_clockwise(&self) -> (r: RotAngle)
        ensures
            r == rot_cw(*self),
    {
        match self {
            RotAngle::Up => RotAngle::Right,
            RotAngle::Right => RotAngle::Down,
            RotAngle::Down => RotAngle::Left,
            RotAngle::Left => RotAngle::Up,
        }
    }

    /// Next state of rotation when rotated counterclockwise
    pub fn rot_clockclockwise(&self) -> (r: RotAngle)
        ensures
            r == rot_ccw(*self),
    {
        match self {
            RotAngle::Up => RotAngle::Left,
            RotAngle::Left => RotAngle::Down,
            RotAngle::Down => RotAngle::Right,
            RotAngle::Right => RotAngle::Up,
        }
    }
}

/// Four clockwise quarter turns, or four counterclockwise ones, give back
/// the angle started from; a counterclockwise turn undoes a clockwise one.
pub proof fn lemma_rotation_cycle(r: RotAngle)
    ensures
        rot_cw(rot_cw(rot_cw(rot_cw(r)))) == r,
        rot_ccw(rot_ccw(rot_ccw(rot_ccw(r)))) == r,
        rot_ccw(rot_cw(r)) == r,
        rot_cw(rot_ccw(r)) == r,
{
}

/// The exponent applied for a repeat count: the count itself when it is
/// positive and fits an `i32`, else 1.
pub open spec fn zoom_exponent(times: usize) -> int {
    if 1 <= times && times <= i32::MAX {
        times as int
    } else {
        1
    }
}

/// Set zoom times to 1 if times is too big for an `i32` value or times is 0
pub fn cap_zoom_times(times: usize) -> (r: i32)
    ensures
        r as int == zoom_exponent(times),
        r >= 1,
{
    if 1 <= times && times <= i32::MAX as usize {
        times as i32
    } else {
        1
    }
}

/// The action of a single typed character.
pub open spec fn char_action<'a>(c: char) -> Action<'a> {
    if '1' <= c && c <= '9' {
        Action::Digit((c as u32 - '0' as u32) as usize)
    } else {
        match c {
            'c' => Action::Copy,
            'd' => Action::Trash,
            'D' => Action::Delete,
            'f' => Action::ToggleFullscreen,
            'g' => Action::First,
            'G' => Action::Last,
            'h' => Action::FlipHorizontal,
            '?' => Action::ToggleHelp,
            'H' => Action::Pan(PanAction::Left),
            'i' => Action::Zoom(ZoomAction::In),
            'j' => Action::Next,
            'J' => Action::Pan(PanAction::Down),
            'k' => Action::Prev,
            'K' => Action::Pan(PanAction::Up),
            'L' => Action::Pan(PanAction::Right),
            'm' => Action::Move,
            'p' => Action::Cmd,
            'o' => Action::Zoom(ZoomAction::Out),
            'q' => Action::Quit,
            'r' => Action::Rotate(RotationDirection::Clockwise),
            'R' => Action::Rotate(RotationDirection::CounterClockwise),
            't' => Action::ToggleInfobar,
            'v' => Action::FlipVertical,
            'w' => Action::SkipForward,
            'b' => Action::SkipBack,
            'z' => Action::ToggleFit,
            'Z' => Action::CenterImage,
            _ => Action::Noop,
        }
    }
}

/// The action of typed text: only a single character means something.
pub open spec fn text_action<'a>(text: Seq<char>) -> Action<'a> {
    if text.len() == 1 {
        char_action(text[0])
    } else {
        Action::Noop
    }
}

/// The action of a key pressed with shift: a directional key pans.
pub open spec fn shifted_key_action<'a>(k: Key) -> Action<'a> {
    match k {
        Key::Left => Action::Pan(PanAction::Left),
        Key::Right => Action::Pan(PanAction::Right),
        Key::Up => Action::Pan(PanAction::Up),
        Key::Down => Action::Pan(PanAction::Down),
        _ => Action::Noop,
    }
}

/// The action of a key pressed without shift.
pub open spec fn key_action<'a>(k: Key) -> Action<'a> {
    match k {
        Key::Delete => Action::Delete,
        Key::F11 => Action::ToggleFullscreen,
        Key::Escape => Action::Quit,
        Key::PageUp => Action::SkipForward,
        Key::PageDown => Action::SkipBack,
        Key::Home => Action::First,
        Key::End => Action::Last,
        Key::Period => Action::RepeatLastAction,
        Key::Right => Action::Next,
        Key::Left => Action::Prev,
        Key::Up => Action::Zoom(ZoomAction::In),
        Key::Down => Action::Zoom(ZoomAction::Out),
        Key::Backspace => Action::Backspace,
        Key::Other => Action::Noop,
    }
}

/// Whether a modifier mask holds either shift key, whatever else it holds.
pub open spec fn is_shifted(keymod: u16) -> bool {
    keymod & (LSHIFT_MOD | RSHIFT_MOD) != 0
}

/// The action that an event resolves to.
pub open spec fn event_action<'a>(event: InputEvent) -> Action<'a> {
    match event {
        InputEvent::Quit => Action::Quit,
        InputEvent::TextInput { text } => text_action(text@),
        InputEvent::KeyDown { keycode: Some(k), keymod } => if is_shifted(keymod) {
            shifted_key_action(k)
        } else {
            key_action(k)
        },
        InputEvent::Window { win_event } => match win_event {
            WindowChange::Exposed
            | WindowChange::Resized(..)
            | WindowChange::SizeChanged(..)
            | WindowChange::Maximized => Action::ReRender,
            WindowChange::Other => Action::Noop,
        },
        InputEvent::MouseButtonUp { mouse_btn: Button::Left } => Action::ToggleFit,
        _ => Action::Noop,
    }
}

fn char_to_action<'a>(c: char) -> (a: Action<'a>)
    ensures
        a == char_action::<'a>(c),
{
    if '1' <= c && c <= '9' {
        return Action::Digit((c as u32 - '0' as u32) as usize);
    }
    match c {
        'c' => Action::Copy,
        'd' => Action::Trash,
        'D' => Action::Delete,
        'f' => Action::ToggleFullscreen,
        'g' => Action::First,
        'G' => Action::Last,
        'h' => Action::FlipHorizontal,
        '?' => Action::ToggleHelp,
        'H' => Action::Pan(PanAction::Left),
        'i' => Action::Zoom(ZoomAction::In),
        'j' => Action::Next,
        'J' => Action::Pan(PanAction::Down),
        'k' => Action::Prev,
        'K' => Action::Pan(PanAction::Up),
        'L' => Action::Pan(PanAction::Right),
        'm' => Action::Move,
        'p' => Action::Cmd,
        'o' => Action::Zoom(ZoomAction::Out),
        'q' => Action::Quit,
        'r' => Action::Rotate(RotationDirection::Clockwise),
        'R' => Action::Rotate(RotationDirection::CounterClockwise),
        't' => Action::ToggleInfobar,
        'v' => Action::FlipVertical,
        'w' => Action::SkipForward,
        'b' => Action::SkipBack,
        'z' => Action::ToggleFit,
        'Z' => Action::CenterImage,
        _ => Action::Noop,
    }
}

fn key_to_action<'a>(k: Key, keymod: u16) -> (a: Action<'a>)
    ensures
        a == (if is_shifted(keymod) {
            shifted_key_action::<'a>(k)
        } else {
            key_action::<'a>(k)
        }),
{
    if keymod & (LSHIFT_MOD | RSHIFT_MOD) != 0 {
        match k {
            Key::Left => Action::Pan(PanAction::Left),
            Key::Right => Action::Pan(PanAction::Right),
            Key::Up => Action::Pan(PanAction::Up),
            Key::Down => Action::Pan(PanAction::Down),
            _ => Action::Noop,
        }
    } else {
        match k {
            Key::Delete => Action::Delete,
            Key::F11 => Action::ToggleFullscreen,
            Key::Escape => Action::Quit,
            Key::PageUp => Action::SkipForward,
            Key::PageDown => Action::SkipBack,
            Key::Home => Action::First,
            Key::End => Action::Last,
            Key::Period => Action::RepeatLastAction,
            Key::Right => Action::Next,
            Key::Left => Action::Prev,
            Key::Up => Action::Zoom(ZoomAction::In),
            Key::Down => Action::Zoom(ZoomAction::Out),
            Key::Backspace => Action::Backspace,
            Key::Other => Action::Noop,
        }
    }
}

/// The action that an event resolves to: never fails, unknown input is `Noop`.
pub fn event_to_action<'a>(event: &InputEvent) -> (a: Action<'a>)
    ensures
        a == event_action::<'a>(*event),
{
    match event {
        InputEvent::Quit => Action::Quit,
        InputEvent::TextInput { text } => {
            let t = text.as_str();
            if t.unicode_len() == 1 {
                char_to_action(t.get_char(0))
            } else {
                Action::Noop
            }
        },
        InputEvent::KeyDown { keycode: Some(k), keymod } => key_to_action(*k, *keymod),
        InputEvent::Window { win_event } => match win_event {
            WindowChange::Exposed
            | WindowChange::Resized(..)
            | WindowChange::SizeChanged(..)
            | WindowChange::Maximized => Action::ReRender,
            WindowChange::Other => Action::Noop,
        },
        InputEvent::MouseButtonUp { mouse_btn: Button::Left } => Action::ToggleFit,
        _ => Action::Noop,
    }
}

impl<'a> Default for Action<'a> {
    fn default() -> (r: Self)
        ensures
            r == Action::<'a>::Noop,
    {
        Action::Noop
    }
}

impl<'a> ProcessAction<'a> {
    /// Pairs `action` with a repeat count
    pub fn new(action: Action<'a>, times: usize) -> (r: Self)
        ensures
            r == (ProcessAction { action, times }),
    {
        Self { action, times }
    }
}

impl<'a> Default for ProcessAction<'a> {
    fn default() -> (r: Self)
        ensures
            r == (ProcessAction::<'a> { action: Action::Noop, times: 1 }),
    {
        Self { action: Action::Noop, times: 1 }
    }
}

/// Storage for state across events
#[derive(Clone, Copy, Debug)]
pub struct Register<'a> {
    /// Action being assembled; its `times` is the repeat count entered so far
    pub cur_action: ProcessAction<'a>,
}

impl<'a> Default for Register<'a> {
    fn default() -> (r: Self)
        ensures
            r == (Register::<'a> { cur_action: ProcessAction { action: Action::Noop, times: 1 } }),
    {
        Self { cur_action: ProcessAction::new(Action::Noop, 1) }
    }
}

/// State that changes how future events are handled, and the view of the image.
///
/// The scale of the image is `1.1` raised to `zoom_level`: level 0 is the actual
/// size, each zoom step in multiplies the scale by `1.1`, and every level gives a
/// positive scale.
#[derive(Clone, Debug)]
pub struct State<'a> {
    /// Whether the info bar is rendered
    pub render_infobar: bool,
    /// Which help is rendered
    pub render_help: HelpRender,
    /// Whether the app is fullscreen
    pub fullscreen: bool,
    /// Current mode, which changes how input is interpreted
    pub mode: Mode,
    /// The last action performed, for repeating it
    pub last_action: ProcessAction<'a>,
    /// Exponent of the scale of the image, in zoom steps
    pub zoom_level: i64,
    /// The image is flipped horizontally
    pub flip_horizontal: bool,
    /// The image is flipped vertically
    pub flip_vertical: bool,
    /// Rotation of the image
    pub rot_angle: RotAngle,
    /// Storage across events
    pub register: Register<'a>,
}

/// The state a session starts in.
pub open spec fn initial_state<'a>() -> State<'a> {
    State {
        render_infobar: true,
        render_help: HelpRender::Hidden,
        fullscreen: false,
        mode: Mode::Normal,
        last_action: ProcessAction { action: Action::Noop, times: 1 },
        zoom_level: 0,
        flip_horizontal: false,
        flip_vertical: false,
        rot_angle: RotAngle::Up,
        register: Register { cur_action: ProcessAction { action: Action::Noop, times: 1 } },
    }
}

impl<'a> Default for State<'a> {
    fn default() -> (r: Self)
        ensures
            r == initial_state::<'a>(),
    {
        Self {
            render_infobar: true,
            render_help: HelpRender::Hidden,
            fullscreen: false,
            mode: Mode::Normal,
            last_action: ProcessAction::default(),
            zoom_level: 0,
            flip_horizontal: false,
            flip_vertical: false,
            rot_angle: RotAngle::Up,
            register: Register::default(),
        }
    }
}

/// Zoom level after zooming in by `times`, saturating at the largest level.
pub open spec fn zoomed_in(level: i64, times: usize) -> i64 {
    if level + zoom_exponent(times) > i64::MAX {
        i64::MAX
    } else {
        (level + zoom_exponent(times)) as i64
    }
}

/// Zoom level after zooming out by `times`, saturating at the smallest level.
pub open spec fn zoomed_out(level: i64, times: usize) -> i64 {
    if level - zoom_exponent(times) < i64::MIN {
        i64::MIN
    } else {
        (level - zoom_exponent(times)) as i64
    }
}

/// Whether recording an action as the last one is skipped: actions that only
/// redraw, quit, do nothing or start a repeat count.
pub open spec fn is_unrecorded(a: Action) -> bool {
    match a {
        Action::Noop | Action::Quit | Action::ReRender | Action::SwitchMultiNormalMode => true,
        _ => false,
    }
}

/// The last action after `pa` is processed.
pub open spec fn recorded<'a>(last: ProcessAction<'a>, pa: ProcessAction<'a>) -> ProcessAction<'a> {
    if is_unrecorded(pa.action) {
        last
    } else {
        pa
    }
}

impl<'a> State<'a> {
    /// Zooms in by `1.1` to the power of the capped repeat count. Does not render.
    pub fn zoom_in(&mut self, times: usize)
        ensures
            *final(self) == (State { zoom_level: zoomed_in(old(self).zoom_level, times), ..*old(self) }),
    {
        let zoom_times = cap_zoom_times(times) as i64;
        if self.zoom_level > i64::MAX - zoom_times {
            self.zoom_level = i64::MAX;
        } else {
            self.zoom_level = self.zoom_level + zoom_times;
        }
    }

    /// Zooms out by `1.1` to the power of the capped repeat count. Does not render.
    pub fn zoom_out(&mut self, times: usize)
        ensures
            *final(self) == (State { zoom_level: zoomed_out(old(self).zoom_level, times), ..*old(self) }),
    {
        let zoom_times = cap_zoom_times(times) as i64;
        if self.zoom_level < i64::MIN + zoom_times {
            self.zoom_level = i64::MIN;
        } else {
            self.zoom_level = self.zoom_level - zoom_times;
        }
    }

    /// Records `pa` as the last action, unless it only redraws, quits, does
    /// nothing or starts a repeat count, and hands it back.
    pub fn process_action(&mut self, pa: ProcessAction<'a>) -> (r: ProcessAction<'a>)
        ensures
            r == pa,
            *final(self) == (State { last_action: recorded(old(self).last_action, pa), ..*old(self) }),
    {
        match pa.action {
            Action::Noop | Action::Quit | Action::ReRender | Action::SwitchMultiNormalMode => {},
            _ => {
                self.last_action = pa;
            },
        }
        pa
    }
}

/// The repeat count after digit `d` is appended to `count`, saturating at the
/// largest count.
pub open spec fn appended_digit(count: usize, d: usize) -> usize {
    if count * 10 + d > usize::MAX {
        usize::MAX
    } else {
        (count * 10 + d) as usize
    }
}

/// The help setting after it is toggled.
pub open spec fn toggled_help(h: HelpRender) -> HelpRender {
    match h {
        HelpRender::Normal => HelpRender::Hidden,
        HelpRender::Hidden => HelpRender::Normal,
    }
}

/// The state after action `a` is handled in normal mode.
pub open spec fn normal_mode_state<'a>(s: State<'a>, a: Action<'a>) -> State<'a> {
    match a {
        Action::Digit(d) => State {
            register: Register { cur_action: ProcessAction { times: d, ..s.register.cur_action } },
            ..s
        },
        Action::ToggleHelp => State { render_help: toggled_help(s.render_help), ..s },
        Action::ToggleInfobar => State { render_infobar: !s.render_infobar, ..s },
        _ => s,
    }
}

/// What action `a` asks for in normal mode.
pub open spec fn normal_mode_result<'a>(s: State<'a>, a: Action<'a>) -> ProcessAction<'a> {
    match a {
        Action::Digit(_) => ProcessAction { action: Action::SwitchMultiNormalMode, times: 1 },
        Action::ToggleHelp | Action::ToggleInfobar => ProcessAction {
            action: Action::ReRender,
            times: 1,
        },
        Action::RepeatLastAction => s.last_action,
        Action::Backspace => ProcessAction { action: Action::Noop, times: 1 },
        _ => ProcessAction { action: a, times: 1 },
    }
}

/// The state after action `a` is handled while a repeat count is entered.
pub open spec fn multi_normal_mode_state<'a>(s: State<'a>, a: Action<'a>) -> State<'a> {
    match a {
        Action::Digit(d) => State {
            register: Register {
                cur_action: ProcessAction {
                    times: appended_digit(s.register.cur_action.times, d),
                    ..s.register.cur_action
                },
            },
            ..s
        },
        Action::RepeatLastAction => State {
            last_action: ProcessAction { times: s.register.cur_action.times, ..s.last_action },
            ..s
        },
        _ => s,
    }
}

/// What action `a` asks for while a repeat count is entered.
pub open spec fn multi_normal_mode_result<'a>(s: State<'a>, a: Action<'a>) -> MultiNormalAction<'a> {
    let times = s.register.cur_action.times;
    match a {
        Action::Digit(_) => MultiNormalAction::MoreInput,
        Action::Quit => MultiNormalAction::Quit,
        Action::RepeatLastAction => MultiNormalAction::Repeat(
            ProcessAction { times, ..s.last_action },
        ),
        Action::Noop => MultiNormalAction::Noop,
        Action::ReRender => MultiNormalAction::ReRender,
        _ => MultiNormalAction::Repeat(ProcessAction { action: a, times }),
    }
}

fn append_digit(count: usize, d: usize) -> (r: usize)
    ensures
        r == appended_digit(count, d),
{
    if count > usize::MAX / 10 {
        assert(count * 10 > usize::MAX) by (nonlinear_arith)
            requires
                count > usize::MAX / 10,
        ;
        usize::MAX
    } else {
        assert(count * 10 <= usize::MAX) by (nonlinear_arith)
            requires
                count <= usize::MAX / 10,
        ;
        (count * 10).saturating_add(d)
    }
}

/// Handles an event while a repeat count is entered: digits extend the count,
/// and any other action is paired with it.
pub fn process_multi_normal_mode<'a>(state: &mut State<'a>, event: &InputEvent) -> (r:
    MultiNormalAction<'a>)
    ensures
        r == multi_normal_mode_result(*old(state), event_action::<'a>(*event)),
        *final(state) == multi_normal_mode_state(*old(state), event_action::<'a>(*event)),
{
    let times = state.register.cur_action.times;
    let action = event_to_action(event);
    match action {
        Action::Digit(next_digit) => {
            state.register.cur_action.times = append_digit(times, next_digit);
            MultiNormalAction::MoreInput
        },
        Action::Quit => MultiNormalAction::Quit,
        Action::RepeatLastAction => {
            state.last_action.times = times;
            MultiNormalAction::Repeat(state.last_action)
        },
        Action::Noop => MultiNormalAction::Noop,
        Action::ReRender => MultiNormalAction::ReRender,
        _ => MultiNormalAction::Repeat(ProcessAction::new(action, times)),
    }
}

/// Handles an event in normal mode: a digit starts a repeat count, the help
/// and info bar toggles take effect at once, and the rest is performed once.
pub fn process_normal_mode<'a>(state: &mut State<'a>, event: &InputEvent) -> (r: ProcessAction<'a>)
    ensures
        r == normal_mode_result(*old(state), event_action::<'a>(*event)),
        *final(state) == normal_mode_state(*old(state), event_action::<'a>(*event)),
{
    let action = event_to_action(event);
    match action {
        Action::Digit(first_digit) => {
            state.register.cur_action.times = first_digit;
            ProcessAction::new(Action::SwitchMultiNormalMode, 1)
        },
        Action::ToggleHelp => {
            match state.render_help {
                HelpRender::Normal => state.render_help = HelpRender::Hidden,
                _ => state.render_help = HelpRender::Normal,
            }
            ProcessAction::new(Action::ReRender, 1)
        },
        Action::ToggleInfobar => {
            state.render_infobar = !state.render_infobar;
            ProcessAction::new(Action::ReRender, 1)
        },
        Action::RepeatLastAction => state.last_action,
        Action::Backspace => ProcessAction::new(Action::Noop, 1),
        _ => ProcessAction::new(action, 1),
    }
}

impl<'a> From<ProcessAction<'a>> for MultiNormalAction<'a> {
    fn from(item: ProcessAction<'a>) -> (r: Self) {
        MultiNormalAction::Repeat(item)
    }
}

impl<'a> vstd::std_specs::convert::FromSpecImpl<ProcessAction<'a>> for MultiNormalAction<'a> {
    open spec fn obeys_from_spec() -> bool {
        true
    }

    open spec fn from_spec(item: ProcessAction<'a>) -> Self {
        MultiNormalAction::Repeat(item)
    }
}

impl<'a> From<Action<'a>> for MultiNormalAction<'a> {
    fn from(item: Action<'a>) -> (r: Self) {
        MultiNormalAction::Repeat(ProcessAction::new(item, 1))
    }
}

impl<'a> vstd::std_specs::convert::FromSpecImpl<Action<'a>> for MultiNormalAction<'a> {
    open spec fn obeys_from_spec() -> bool {
        true
    }

    open spec fn from_spec(item: Action<'a>) -> Self {
        MultiNormalAction::Repeat(ProcessAction { action: item, times: 1 })
    }
}

impl<'a> From<(Action<'a>, usize)> for MultiNormalAction<'a> {
    fn from(item: (Action<'a>, usize)) -> (r: Self) {
        MultiNormalAction::Repeat(ProcessAction::new(item.0, item.1))
    }
}

impl<'a> vstd::std_specs::convert::FromSpecImpl<(Action<'a>, usize)> for MultiNormalAction<'a> {
    open spec fn obeys_from_spec() -> bool {
        true
    }

    open spec fn from_spec(item: (Action<'a>, usize)) -> Self {
        MultiNormalAction::Repeat(ProcessAction { action: item.0, times: item.1 })
    }
}

impl<'a> From<Action<'a>> for ProcessAction<'a> {
    fn from(item: Action<'a>) -> (r: Self) {
        ProcessAction::new(item, 1)
    }
}

impl<'a> vstd::std_specs::convert::FromSpecImpl<Action<'a>> for ProcessAction<'a> {
    open spec fn obeys_from_spec() -> bool {
        true
    }

    open spec fn from_spec(item: Action<'a>) -> Self {
        ProcessAction { action: item, times: 1 }
    }
}

impl<'a> From<(Action<'a>, usize)> for ProcessAction<'a> {
    fn from(item: (Action<'a>, usize)) -> (r: Self) {
        ProcessAction::new(item.0, item.1)
    }
}

impl<'a> vstd::std_specs::convert::FromSpecImpl<(Action<'a>, usize)> for ProcessAction<'a> {
    open spec fn obeys_from_spec() -> bool {
        true
    }

    open spec fn from_spec(item: (Action<'a>, usize)) -> Self {
        ProcessAction { action: item.0, times: item.1 }
    }
}

/// Zooming in by a repeat count and then out by the same count gives back the
/// state started from, wherever the zoom level stays within its range.
pub proof fn lemma_zoom_round_trip(s: State, n: usize)
    requires
        s.zoom_level + zoom_exponent(n) <= i64::MAX,
    ensures
        ({
            let zoomed = State { zoom_level: zoomed_in(s.zoom_level, n), ..s };
            State { zoom_level: zoomed_out(zoomed.zoom_level, n), ..zoomed } == s
        }),
{
}

/// Appending digits to a repeat count never makes it wrap around: it grows or
/// stays at the largest count. A zoom by the largest count is a single zoom step.
pub proof fn lemma_count_saturates(count: usize, d: usize, level: i64)
    ensures
        appended_digit(count, d) >= count,
        count * 10 + d > usize::MAX ==> appended_digit(count, d) == usize::MAX,
        zoom_exponent(usize::MAX) == 1,
        level < i64::MAX ==> zoomed_in(level, usize::MAX) == level + 1,
        level > i64::MIN ==> zoomed_out(level, usize::MAX) == level - 1,
{
}

/// Actions that only redraw, quit, do nothing or start a repeat count leave the
/// last action as it was; any other becomes the last action exactly.
pub proof fn lemma_last_action_exclusion<'a>(s: State<'a>, pa: ProcessAction<'a>)
    ensures
        is_unrecorded(pa.action) <==> (pa.action is Noop || pa.action is Quit
            || pa.action is ReRender || pa.action is SwitchMultiNormalMode),
        is_unrecorded(pa.action) ==> recorded(s.last_action, pa) == s.last_action,
        !is_unrecorded(pa.action) ==> recorded(s.last_action, pa) == pa,
{
}

/// Repeating the last action in normal mode replays it unchanged; while a
/// repeat count is entered it replays it with the count entered, which also
/// becomes the count of the last action.
pub proof fn lemma_repeat_last_action<'a>(s: State<'a>)
    ensures
        normal_mode_result(s, Action::RepeatLastAction) == s.last_action,
        normal_mode_state(s, Action::RepeatLastAction) == s,
        multi_normal_mode_result(s, Action::RepeatLastAction) == MultiNormalAction::Repeat(
            ProcessAction { action: s.last_action.action, times: s.register.cur_action.times },
        ),
        multi_normal_mode_state(s, Action::RepeatLastAction).last_action == (ProcessAction {
            action: s.last_action.action,
            times: s.register.cur_action.times,
        }),
{
}

} // verus!
