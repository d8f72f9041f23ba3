//! The desktop: three tabs (desktop, console, settings) and an exit entry
//! on a taskbar, switched with the arrow keys or by a click on the taskbar;
//! a console that hands commands to the host and keeps their output; a
//! settings tab that picks the background colour and the frame-rate limit;
//! and a frame counter for the frames-per-second display.
//!
//! The desktop is a state machine: the caller reads an event, hands it to
//! `Desktop::handle_event`, and performs the action that comes back.

use ratatui::layout::Constraint;
use ratatui::layout::Layout;
use ratatui::layout::Rect;
use vstd::prelude::*;
use vstd::string::StringExecFns;

use crate::input::Key;
use crate::text::decimal;
use crate::text::decimal_string;
use crate::text::join_lines;
use crate::text::joined;
use crate::text::lines;
use crate::text::lines_of;
use crate::text::pop_char;
use crate::text::push_char;
use crate::text::trim;
use crate::text::trimmed;

verus! {

/// The frame-rate limit that means "no limit".
pub const UNCAPPED_FPS: u32 = 9999;

/// The line that starts each command in the console.
pub open spec fn prompt() -> Seq<char> {
    "guest@titanium_os:~# "@
}

/// The background colour of the desktop.
#[derive(Clone, Copy, Debug, PartialEq, Eq, Structural)]
pub enum Theme {
    Blue,
    Black,
    DarkGray,
}

/// What the desktop is told: a key press, a press of the left mouse button
/// at a cell, or anything else.
#[derive(Clone, Copy, Debug, PartialEq, Eq, Structural)]
pub enum Event {
    Key(Key),
    LeftClick { column: u16, row: u16 },
    Other,
}

/// What the caller does next: go on, leave the desktop, or run a command
/// on the host and report back with `Desktop::finish_command`.
pub enum Action {
    Continue,
    Exit,
    RunCommand(String),
}

/// An `Action` as a mathematical value.
pub enum ActionView {
    Continue,
    Exit,
    RunCommand(Seq<char>),
}

impl View for Action {
    type V = ActionView;

    open spec fn view(&self) -> ActionView {
        match self {
            Action::Continue => ActionView::Continue,
            Action::Exit => ActionView::Exit,
            Action::RunCommand(c) => ActionView::RunCommand(c@),
        }
    }
}

/// The cells of one taskbar entry: columns `start_x` up to `end_x`
/// (exclusive) of row `y`.
#[derive(Clone, Copy, Debug, PartialEq, Eq, Structural)]
pub struct TaskbarArea {
    pub start_x: u16,
    pub end_x: u16,
    pub y: u16,
}

/// A rectangle of terminal cells.
#[derive(Clone, Copy, Debug, PartialEq, Eq, Structural)]
pub struct Area {
    pub x: u16,
    pub y: u16,
    pub width: u16,
    pub height: u16,
}

/// The screen split for drawing: the main area, the taskbar, and the
/// clickable entries of the taskbar when they fit on the screen's
/// coordinates.
pub struct ScreenLayout {
    pub main: Area,
    pub taskbar: Area,
    pub tab_areas: Option<Vec<TaskbarArea>>,
}

/// The desktop's state.
pub struct Desktop {
    pub current_tab: usize,
    pub theme: Theme,
    pub target_fps: u32,
    pub input_buffer: String,
    pub console_history: Vec<String>,
    pub fps: u32,
    pub frame_count: u32,
}

/// What the desktop is, as a mathematical value.
pub struct DesktopState {
    pub current_tab: usize,
    pub theme: Theme,
    pub target_fps: u32,
    pub input: Seq<char>,
    pub history: Seq<Seq<char>>,
    pub fps: u32,
    pub frame_count: u32,
}

impl View for Desktop {
    type V = DesktopState;

    open spec fn view(&self) -> DesktopState {
        DesktopState {
            current_tab: self.current_tab,
            theme: self.theme,
            target_fps: self.target_fps,
            input: self.input_buffer@,
            history: self.console_history.deep_view(),
            fps: self.fps,
            frame_count: self.frame_count,
        }
    }
}

/// Whether a click at (`column`, `row`) lands on `a`.
pub open spec fn hit(a: TaskbarArea, column: u16, row: u16) -> bool {
    row == a.y && a.start_x <= column && column < a.end_x
}

/// A click checked against the first `k` taskbar entries in turn, from tab
/// `tab`: a hit on entry 3 leaves the desktop at once, a hit on another
/// entry selects that tab. The result is the tab and whether to leave.
pub open spec fn click_scan(
    tab: usize,
    areas: Seq<TaskbarArea>,
    column: u16,
    row: u16,
    k: nat,
) -> (usize, bool)
    decreases k,
{
    if k == 0 {
        (tab, false)
    } else {
        let (t, leave) = click_scan(tab, areas, column, row, (k - 1) as nat);
        if leave {
            (t, true)
        } else if hit(areas[k - 1], column, row) {
            if k - 1 == 3 {
                (t, true)
            } else {
                ((k - 1) as usize, false)
            }
        } else {
            (t, false)
        }
    }
}

/// The columns from the taskbar's left edge plus two at which the `i`-th
/// entry starts; entries are 12, 12, 13 and 13 cells wide with one cell
/// between each two.
pub open spec fn tab_offset(i: int) -> int {
    if i <= 0 {
        0
    } else if i == 1 {
        13
    } else if i == 2 {
        26
    } else if i == 3 {
        40
    } else {
        54
    }
}

/// Whether the taskbar entries of a taskbar at (`x`, `y`) can be counted out
/// without leaving the range of `u16`.
pub open spec fn taskbar_fits(x: u16, y: u16) -> bool {
    x + 2 + tab_offset(4) <= u16::MAX && y + 1 <= u16::MAX
}

/// The taskbar entries of a taskbar whose top left cell is (`x`, `y`): four
/// entries on the row below its top border, starting two cells in.
pub open spec fn tab_areas_of(x: u16, y: u16) -> Seq<TaskbarArea> {
    Seq::new(
        4,
        |i: int|
            TaskbarArea {
                start_x: (x + 2 + tab_offset(i)) as u16,
                end_x: (x + 2 + tab_offset(i) + (if i < 2 { 12int } else { 13int })) as u16,
                y: (y + 1) as u16,
            },
    )
}

/// `a + b`, or `u16::MAX` where that overflows.
pub open spec fn saturating_add(a: u16, b: u16) -> u16 {
    if a + b > u16::MAX {
        u16::MAX
    } else {
        (a + b) as u16
    }
}

/// The rectangle inside `a` that a margin of `margin` cells on each side
/// leaves, or an empty one at (0, 0) where `a` is too small.
pub open spec fn inner_area(a: Area, margin: u16) -> Area {
    let doubled = if 2 * margin > u16::MAX {
        u16::MAX as int
    } else {
        2 * margin
    };
    if a.width < doubled || a.height < doubled {
        Area { x: 0, y: 0, width: 0, height: 0 }
    } else {
        Area {
            x: saturating_add(a.x, margin),
            y: saturating_add(a.y, margin),
            width: (a.width - doubled) as u16,
            height: (a.height - doubled) as u16,
        }
    }
}

/// The rows that the main area gets out of `avail`: all but `bar_rows`,
/// but at least `main_min` where there are that many.
pub open spec fn main_rows(avail: int, main_min: int, bar_rows: int) -> int {
    let least = if main_min < avail {
        main_min
    } else {
        avail
    };
    if avail - bar_rows > least {
        avail - bar_rows
    } else {
        least
    }
}

/// A screen split inside a margin into a main area of at least `main_min`
/// rows on top and a bar of `bar_rows` rows below it: the bar gets its rows
/// where the main area keeps its least, the main area the rest.
pub open spec fn split_parts(screen: Area, margin: u16, main_min: u16, bar_rows: u16) -> (
    Area,
    Area,
) {
    let i = inner_area(screen, margin);
    let bottom = if i.y + i.height > u16::MAX {
        u16::MAX as int
    } else {
        i.y + i.height
    };
    let avail = bottom - i.y;
    let a = main_rows(avail, main_min as int, bar_rows as int);
    (
        Area { x: i.x, y: i.y, width: i.width, height: a as u16 },
        Area { x: i.x, y: (i.y + a) as u16, width: i.width, height: (avail - a) as u16 },
    )
}

/// The text of the desktop tab: the system's banner, then the desktop's
/// icons and a welcome.
pub open spec fn home_text_of() -> Seq<char> {
    r#"
  _________________________ 
  _______   _
 |__   __| |-|         / __ \ / ____|
    | |    |_|         | |  | | (___  
    | |    | |         | |  | |\___ \ 
    | |    | |         | |__| |____) |
    |_|    |_|          \____/|_____/ 
    
    
    
    
    
      "#@ + "\n\n 📁 Documents   🎮 Games\n\n Welcome to your desktop!\n Use Left/Right arrows or click the Taskbar to navigate."@
}

/// The settings text for a frame-rate limit.
pub open spec fn limiter_status(target_fps: u32) -> Seq<char> {
    if target_fps == UNCAPPED_FPS {
        "UNLIMITED"@
    } else {
        decimal(target_fps as nat) + " Hz"@
    }
}

/// The text of the settings tab for a frame-rate limit.
pub open spec fn settings_text_of(target_fps: u32) -> Seq<char> {
    " 🛠️ Settings Menu\n\n [Background Color] Press:\n 1 -> Deep Blue\n 2 -> Classic Black\n 3 -> Slate Gray\n\n [Frame Rate Limiter / Display Hz] Press:\n 4 -> Set to 30 Hz (Power Save)\n 5 -> Set to 60 Hz (Standard)\n 6 -> Set to 144 Hz (Gaming)\n 7 -> Uncapped (Max Performance)\n\n Current Limiter Status: "@
        + limiter_status(target_fps)
        + "\n\n System Info Summary:\n Host: Hybrid Linux Environment"@
}

/// The title of the taskbar for a frame rate and a frame-rate limit.
pub open spec fn taskbar_title_of(fps: u32, target_fps: u32) -> Seq<char> {
    " Taskbar | FPS: "@ + decimal(fps as nat) + " | Limit: "@ + (if target_fps == UNCAPPED_FPS {
        "None"@
    } else {
        decimal(target_fps as nat)
    }) + "Hz "@
}

impl DesktopState {
    /// The desktop as it starts: the desktop tab, a black background, a
    /// limit of 60 frames per second, an empty input line, and a welcome
    /// text in the console.
    pub open spec fn initial() -> DesktopState {
        DesktopState {
            current_tab: 0,
            theme: Theme::Black,
            target_fps: 60,
            input: seq![],
            history: seq![
                "Welcome to TitaniumOS Terminal!"@,
                "Type 'help' for a list of commands."@,
                seq![],
            ],
            fps: 0,
            frame_count: 0,
        }
    }

    /// A key on the console tab. Enter on an input that is not all white
    /// space records the command line and runs the trimmed input.
    pub open spec fn on_console_key(self, key: Key) -> (DesktopState, ActionView) {
        match key {
            Key::Enter => if trim(self.input).len() > 0 {
                (
                    DesktopState { history: self.history.push(prompt() + self.input), ..self },
                    ActionView::RunCommand(trim(self.input)),
                )
            } else {
                (self, ActionView::Continue)
            },
            Key::Backspace => (
                DesktopState {
                    input: if self.input.len() > 0 {
                        self.input.drop_last()
                    } else {
                        self.input
                    },
                    ..self
                },
                ActionView::Continue,
            ),
            Key::Char(c) => (DesktopState { input: self.input.push(c), ..self }, ActionView::Continue),
            _ => (self, ActionView::Continue),
        }
    }

    /// A key on the settings tab: 1, 2, 3 pick the background colour, 4, 5,
    /// 6, 7 the frame-rate limit.
    pub open spec fn on_settings_key(self, key: Key) -> DesktopState {
        match key {
            Key::Char(c) => if c == '1' {
                DesktopState { theme: Theme::Blue, ..self }
            } else if c == '2' {
                DesktopState { theme: Theme::Black, ..self }
            } else if c == '3' {
                DesktopState { theme: Theme::DarkGray, ..self }
            } else if c == '4' {
                DesktopState { target_fps: 30, ..self }
            } else if c == '5' {
                DesktopState { target_fps: 60, ..self }
            } else if c == '6' {
                DesktopState { target_fps: 144, ..self }
            } else if c == '7' {
                DesktopState { target_fps: UNCAPPED_FPS, ..self }
            } else {
                self
            },
            _ => self,
        }
    }

    /// A key press. Esc leaves; Right moves to the next tab and leaves when
    /// that is the exit entry; Left moves to the previous tab, from the
    /// first to the settings tab; other keys go to the console or the
    /// settings tab when it is shown.
    pub open spec fn on_key(self, key: Key) -> (DesktopState, ActionView) {
        match key {
            Key::Esc => (self, ActionView::Exit),
            Key::Right => {
                let t = ((self.current_tab + 1) % 4) as usize;
                (
                    DesktopState { current_tab: t, ..self },
                    if t == 3 {
                        ActionView::Exit
                    } else {
                        ActionView::Continue
                    },
                )
            },
            Key::Left => (
                DesktopState {
                    current_tab: if self.current_tab > 0 {
                        (self.current_tab - 1) as usize
                    } else {
                        2
                    },
                    ..self
                },
                ActionView::Continue,
            ),
            _ => if self.current_tab == 1 {
                self.on_console_key(key)
            } else if self.current_tab == 2 {
                (self.on_settings_key(key), ActionView::Continue)
            } else {
                (self, ActionView::Continue)
            },
        }
    }

    /// A left click at (`column`, `row`) against the taskbar entries
    /// `areas`.
    pub open spec fn on_click(self, areas: Seq<TaskbarArea>, column: u16, row: u16) -> (
        DesktopState,
        ActionView,
    ) {
        let (t, leave) = click_scan(self.current_tab, areas, column, row, areas.len());
        (
            DesktopState { current_tab: t, ..self },
            if leave {
                ActionView::Exit
            } else {
                ActionView::Continue
            },
        )
    }

    /// An event, with the taskbar entries as last drawn.
    pub open spec fn on_event(self, event: Event, areas: Seq<TaskbarArea>) -> (
        DesktopState,
        ActionView,
    ) {
        match event {
            Event::Key(k) => self.on_key(k),
            Event::LeftClick { column, row } => self.on_click(areas, column, row),
            Event::Other => (self, ActionView::Continue),
        }
    }

    /// The start of a frame: the frame is counted, and when a second has
    /// passed the count becomes the frame rate and starts again.
    pub open spec fn after_frame(self, second_elapsed: bool) -> DesktopState {
        if second_elapsed {
            DesktopState { fps: (self.frame_count + 1) as u32, frame_count: 0, ..self }
        } else {
            DesktopState { frame_count: (self.frame_count + 1) as u32, ..self }
        }
    }

    /// The end of a command with the host's status and output: status 2
    /// clears the console, any other status adds the output's lines; then
    /// an empty line follows and the input line is cleared.
    pub open spec fn after_command(self, status: i32, output: Seq<char>) -> DesktopState {
        DesktopState {
            history: if status == 2 {
                seq![seq![]]
            } else {
                self.history + lines(output) + seq![seq![]]
            },
            input: seq![],
            ..self
        }
    }

    /// The frame-rate limit is one that the settings offer.
    pub open spec fn fps_setting_valid(self) -> bool {
        self.target_fps == 30 || self.target_fps == 60 || self.target_fps == 144
            || self.target_fps == UNCAPPED_FPS
    }
}

/// ratatui's `Layout::split` for a vertical layout with a margin of
/// `margin` cells, a part of at least `main_min` rows (`Constraint::Min`)
/// above a part of `bar_rows` rows (`Constraint::Length`), with the default
/// flex (`Flex::Start`). The contract states the solver's optimum as
/// ratatui's source fixes it: both parts span the columns inside the
/// margin; the minimum outweighs the length, the length the main part's
/// growth, and that the growth of the empty space below, so the bar gets
/// its rows where the main part keeps its minimum and the main part the
/// rest; no two solutions tie.
#[verifier::external_body]
fn split_rows(screen: Area, margin: u16, main_min: u16, bar_rows: u16) -> (r: (Area, Area))
    ensures
        r == split_parts(screen, margin, main_min, bar_rows),
{
    let rects = Layout::default().direction(ratatui::layout::Direction::Vertical).margin(
        margin,
    ).constraints([Constraint::Min(main_min), Constraint::Length(bar_rows)]).split(
        Rect { x: screen.x, y: screen.y, width: screen.width, height: screen.height },
    );
    let (a, b) = (rects[0], rects[1]);
    (
        Area { x: a.x, y: a.y, width: a.width, height: a.height },
        Area { x: b.x, y: b.y, width: b.width, height: b.height },
    )
}

/// The taskbar entries of a taskbar whose top left cell is (`x`, `y`).
pub fn taskbar_areas(x: u16, y: u16) -> (v: Vec<TaskbarArea>)
    requires
        taskbar_fits(x, y),
    ensures
        v@ == tab_areas_of(x, y),
{
    let start_x = x + 2;
    let row = y + 1;
    let widths: [u16; 4] = [12, 12, 13, 13];
    let mut areas: Vec<TaskbarArea> = Vec::new();
    let mut current_x = start_x;
    let mut i: usize = 0;
    while i < 4
        invariant
            i <= 4,
            widths@ == seq![12u16, 12u16, 13u16, 13u16],
            start_x == x + 2,
            row == y + 1,
            taskbar_fits(x, y),
            current_x == start_x + tab_offset(i as int),
            areas@ == tab_areas_of(x, y).take(i as int),
        decreases 4 - i,
    {
        let width = widths[i];
        areas.push(TaskbarArea { start_x: current_x, end_x: current_x + width, y: row });
        current_x = current_x + width + 1;
        i = i + 1;
        assert(areas@ =~= tab_areas_of(x, y).take(i as int));
    }
    assert(areas@ =~= tab_areas_of(x, y));
    areas
}

/// The margin around the desktop, in cells.
pub const SCREEN_MARGIN: u16 = 1;

/// The least number of rows of the main area.
pub const MAIN_MIN_ROWS: u16 = 1;

/// The rows of the taskbar.
pub const TASKBAR_ROWS: u16 = 3;

/// Splits the screen into the main area and the taskbar, and counts out
/// the taskbar's entries when they fit.
pub fn screen_layout(screen: Area) -> (l: ScreenLayout)
    ensures
        (l.main, l.taskbar) == split_parts(screen, SCREEN_MARGIN, MAIN_MIN_ROWS, TASKBAR_ROWS),
        match l.tab_areas {
            Some(v) => taskbar_fits(l.taskbar.x, l.taskbar.y) && v@ == tab_areas_of(
                l.taskbar.x,
                l.taskbar.y,
            ),
            None => !taskbar_fits(l.taskbar.x, l.taskbar.y),
        },
{
    let (main, taskbar) = split_rows(screen, SCREEN_MARGIN, MAIN_MIN_ROWS, TASKBAR_ROWS);
    let tab_areas = if taskbar.x <= 65479 && taskbar.y < 65535 {
        Some(taskbar_areas(taskbar.x, taskbar.y))
    } else {
        None
    };
    ScreenLayout { main, taskbar, tab_areas }
}

impl Desktop {
    /// The desktop as it starts.
    pub fn new() -> (d: Desktop)
        ensures
            d@ == DesktopState::initial(),
            d@.fps_setting_valid(),
    {
        let mut history: Vec<String> = Vec::new();
        history.push(String::from_str("Welcome to TitaniumOS Terminal!"));
        history.push(String::from_str("Type 'help' for a list of commands."));
        history.push(String::new());
        let d = Desktop {
            current_tab: 0,
            theme: Theme::Black,
            target_fps: 60,
            input_buffer: String::new(),
            console_history: history,
            fps: 0,
            frame_count: 0,
        };
        assert(d@.history =~= DesktopState::initial().history);
        d
    }

    fn handle_console_key(&mut self, key: Key) -> (a: Action)
        ensures
            (final(self)@, a@) == old(self)@.on_console_key(key),
    {
        match key {
            Key::Enter => {
                let command = trimmed(&self.input_buffer);
                if !command.as_str().is_empty() {
                    let ghost h = self@.history;
                    let mut line = String::from_str("guest@titanium_os:~# ");
                    line.append(self.input_buffer.as_str());
                    self.console_history.push(line);
                    assert(self@.history =~= h.push(prompt() + self@.input));
                    Action::RunCommand(command)
                } else {
                    Action::Continue
                }
            },
            Key::Backspace => {
                let _ = pop_char(&mut self.input_buffer);
                Action::Continue
            },
            Key::Char(c) => {
                push_char(&mut self.input_buffer, c);
                Action::Continue
            },
            _ => Action::Continue,
        }
    }

    fn handle_settings_key(&mut self, key: Key)
        ensures
            final(self)@ == old(self)@.on_settings_key(key),
    {
        match key {
            Key::Char('1') => self.theme = Theme::Blue,
            Key::Char('2') => self.theme = Theme::Black,
            Key::Char('3') => self.theme = Theme::DarkGray,
            Key::Char('4') => self.target_fps = 30,
            Key::Char('5') => self.target_fps = 60,
            Key::Char('6') => self.target_fps = 144,
            Key::Char('7') => self.target_fps = UNCAPPED_FPS,
            _ => {},
        }
    }

    fn handle_key(&mut self, key: Key) -> (a: Action)
        ensures
            (final(self)@, a@) == old(self)@.on_key(key),
    {
        match key {
            Key::Esc => Action::Exit,
            Key::Right => {
                self.current_tab = (self.current_tab % 4 + 1) % 4;
                if self.current_tab == 3 {
                    Action::Exit
                } else {
                    Action::Continue
                }
            },
            Key::Left => {
                if self.current_tab > 0 {
                    self.current_tab = self.current_tab - 1;
                } else {
                    self.current_tab = 2;
                }
                Action::Continue
            },
            _ => {
                if self.current_tab == 1 {
                    self.handle_console_key(key)
                } else if self.current_tab == 2 {
                    self.handle_settings_key(key);
                    Action::Continue
                } else {
                    Action::Continue
                }
            },
        }
    }

    fn handle_click(&mut self, areas: &Vec<TaskbarArea>, column: u16, row: u16) -> (a: Action)
        ensures
            (final(self)@, a@) == old(self)@.on_click(areas@, column, row),
    {
        let n = areas.len();
        let mut i: usize = 0;
        while i < n
            invariant_except_break
                n == areas@.len(),
                i <= n,
                click_scan(old(self).current_tab, areas@, column, row, i as nat) == (
                    self.current_tab,
                    false,
                ),
                self@ == (DesktopState { current_tab: self.current_tab, ..old(self)@ }),
            ensures
                self@ == (DesktopState { current_tab: self.current_tab, ..old(self)@ }),
                i < n ==> click_scan(old(self).current_tab, areas@, column, row, (i + 1) as nat)
                    == (self.current_tab, true),
                i >= n ==> click_scan(old(self).current_tab, areas@, column, row, n as nat) == (
                    self.current_tab,
                    false,
                ),
            decreases n - i,
        {
            let a = areas[i];
            if row == a.y && column >= a.start_x && column < a.end_x {
                if i == 3 {
                    break;
                }
                self.current_tab = i;
            }
            i = i + 1;
        }
        proof {
            if i < n {
                lemma_click_scan_stays(old(self).current_tab, areas@, column, row, (i + 1) as nat, n as nat);
            }
        }
        if i < n {
            Action::Exit
        } else {
            Action::Continue
        }
    }

    /// Reacts to an event; `areas` are the taskbar entries as last drawn.
    pub fn handle_event(&mut self, event: Event, areas: &Vec<TaskbarArea>) -> (a: Action)
        ensures
            (final(self)@, a@) == old(self)@.on_event(event, areas@),
            old(self).current_tab <= 3 && areas@.len() <= 4 ==> final(self).current_tab <= 3,
            old(self)@.fps_setting_valid() ==> final(self)@.fps_setting_valid(),
    {
        let a = match event {
            Event::Key(k) => self.handle_key(k),
            Event::LeftClick { column, row } => self.handle_click(areas, column, row),
            Event::Other => Action::Continue,
        };
        proof {
            if let Event::LeftClick { column, row } = event {
                lemma_click_scan_tab(old(self).current_tab, areas@, column, row, areas@.len());
            }
        }
        a
    }

    /// Reports the end of a command run for `Action::RunCommand`: `status`
    /// is what the host returned and `output` what it printed.
    pub fn finish_command(&mut self, status: i32, output: &String)
        ensures
            final(self)@ == old(self)@.after_command(status, output@),
    {
        let ghost h = self@.history;
        if status == 2 {
            self.console_history = Vec::new();
            assert(self.console_history.deep_view() =~= seq![]);
        } else {
            let ls = lines_of(output);
            let n = ls.len();
            let mut i: usize = 0;
            while i < n
                invariant
                    n == ls.deep_view().len(),
                    i <= n,
                    self.console_history.deep_view() == h + ls.deep_view().take(i as int),
                    self@ == (DesktopState { history: self@.history, ..old(self)@ }),
                decreases n - i,
            {
                let ghost before = self.console_history.deep_view();
                self.console_history.push(ls[i].clone());
                assert(self.console_history.deep_view() =~= before.push(ls.deep_view()[i as int]));
                assert(ls.deep_view().take(i + 1) =~= ls.deep_view().take(i as int).push(
                    ls.deep_view()[i as int],
                ));
                i = i + 1;
            }
            assert(ls.deep_view().take(n as int) =~= ls.deep_view());
            assert(self.console_history.deep_view() =~= h + lines(output@));
        }
        let ghost before = self.console_history.deep_view();
        self.console_history.push(String::new());
        assert(self.console_history.deep_view() =~= before.push(seq![]));
        self.input_buffer = String::new();
        assert(self@.history =~= old(self)@.after_command(status, output@).history);
        assert(self@.input =~= old(self)@.after_command(status, output@).input);
    }

    /// Counts a frame; `second_elapsed` says whether a second has passed
    /// since the count last started. Returns whether the count starts
    /// again, and with it the one-second timer.
    pub fn begin_frame(&mut self, second_elapsed: bool) -> (restart: bool)
        requires
            old(self).frame_count < u32::MAX,
        ensures
            final(self)@ == old(self)@.after_frame(second_elapsed),
            restart == second_elapsed,
    {
        self.frame_count = self.frame_count + 1;
        if second_elapsed {
            self.fps = self.frame_count;
            self.frame_count = 0;
        }
        second_elapsed
    }

    /// The frame-rate limit, or `None` when frames are not limited.
    pub fn frame_limit(&self) -> (r: Option<u32>)
        ensures
            r == (if self.target_fps == UNCAPPED_FPS {
                None
            } else {
                Some(self.target_fps)
            }),
    {
        if self.target_fps == UNCAPPED_FPS {
            None
        } else {
            Some(self.target_fps)
        }
    }

    /// The console's text: its history and then the input line after the
    /// prompt, one per line.
    pub fn console_text(&self) -> (s: String)
        ensures
            s@ == join_lines(self@.history.push(prompt() + self@.input)),
    {
        let mut s = joined(&self.console_history);
        let ghost h = self@.history;
        assert(h.push(prompt() + self@.input).drop_last() =~= h);
        if self.console_history.len() > 0 {
            push_char(&mut s, '\n');
        }
        s.append("guest@titanium_os:~# ");
        s.append(self.input_buffer.as_str());
        proof {
            if h.len() == 0 {
                assert(s@ =~= prompt() + self@.input);
            } else {
                assert(s@ =~= join_lines(h) + seq!['\n'] + (prompt() + self@.input));
            }
        }
        s
    }

    /// The text of the desktop tab.
    pub fn home_text(&self) -> (s: String)
        ensures
            s@ == home_text_of(),
    {
        let mut s = String::from_str(r#"
  _________________________ 
  _______   _
 |__   __| |-|         / __ \ / ____|
    | |    |_|         | |  | | (___  
    | |    | |         | |  | |\___ \ 
    | |    | |         | |__| |____) |
    |_|    |_|          \____/|_____/ 
    
    
    
    
    
      "#);
        s.append("\n\n 📁 Documents   🎮 Games\n\n Welcome to your desktop!\n Use Left/Right arrows or click the Taskbar to navigate.");
        s
    }

    /// The text of the settings tab.
    pub fn settings_text(&self) -> (s: String)
        ensures
            s@ == settings_text_of(self.target_fps),
    {
        let mut s = String::from_str(
            " 🛠️ Settings Menu\n\n [Background Color] Press:\n 1 -> Deep Blue\n 2 -> Classic Black\n 3 -> Slate Gray\n\n [Frame Rate Limiter / Display Hz] Press:\n 4 -> Set to 30 Hz (Power Save)\n 5 -> Set to 60 Hz (Standard)\n 6 -> Set to 144 Hz (Gaming)\n 7 -> Uncapped (Max Performance)\n\n Current Limiter Status: ",
        );
        if self.target_fps == UNCAPPED_FPS {
            s.append("UNLIMITED");
        } else {
            let n = decimal_string(self.target_fps as u64);
            s.append(n.as_str());
            s.append(" Hz");
        }
        s.append("\n\n System Info Summary:\n Host: Hybrid Linux Environment");
        s
    }

    /// The title of the taskbar.
    pub fn taskbar_title(&self) -> (s: String)
        ensures
            s@ == taskbar_title_of(self.fps, self.target_fps),
    {
        let mut s = String::from_str(" Taskbar | FPS: ");
        let f = decimal_string(self.fps as u64);
        s.append(f.as_str());
        s.append(" | Limit: ");
        if self.target_fps == UNCAPPED_FPS {
            s.append("None");
        } else {
            let t = decimal_string(self.target_fps as u64);
            s.append(t.as_str());
        }
        s.append("Hz ");
        s
    }
}

/// Right and then Left bring the desktop and console tabs back to where
/// they were, with nothing else changed.
pub proof fn right_then_left(s: DesktopState)
    requires
        s.current_tab < 2,
    ensures
        s.on_key(Key::Right) == (DesktopState { current_tab: (s.current_tab + 1) as usize, ..s }, ActionView::Continue),
        s.on_key(Key::Right).0.on_key(Key::Left) == (s, ActionView::Continue),
{
}

/// Left and then Right bring the console and settings tabs back to where
/// they were, with nothing else changed.
pub proof fn left_then_right(s: DesktopState)
    requires
        1 <= s.current_tab <= 2,
    ensures
        s.on_key(Key::Left).0.on_key(Key::Right) == (s, ActionView::Continue),
{
}

/// Keys reach only the tab that is shown: the console's input and history
/// change only on the console tab, and the colour and frame-rate limit only
/// on the settings tab.
pub proof fn keys_reach_only_the_shown_tab(s: DesktopState, key: Key)
    ensures
        s.current_tab != 1 ==> s.on_key(key).0.input == s.input && s.on_key(key).0.history
            == s.history,
        s.current_tab != 2 ==> s.on_key(key).0.theme == s.theme && s.on_key(key).0.target_fps
            == s.target_fps,
{
}

/// What each key does: Esc leaves with nothing changed; Right moves to
/// the next of the four taskbar entries and leaves on the exit entry; Left
/// moves to the previous tab, and from the first to the settings tab; on
/// the console a character is appended to the input and Backspace removes
/// its last character; on the settings tab 1, 2, 3 set a blue, black or
/// dark grey background and 4, 5, 6, 7 a limit of 30, 60, 144 or no frames
/// per second.
pub proof fn keys_act(s: DesktopState, c: char)
    ensures
        s.on_key(Key::Esc) == (s, ActionView::Exit),
        s.current_tab < 2 ==> s.on_key(Key::Right) == (DesktopState {
            current_tab: (s.current_tab + 1) as usize,
            ..s
        }, ActionView::Continue),
        s.current_tab == 2 ==> s.on_key(Key::Right).1 == ActionView::Exit,
        s.current_tab == 3 ==> s.on_key(Key::Right) == (DesktopState { current_tab: 0, ..s }, ActionView::Continue),
        s.current_tab > 0 ==> s.on_key(Key::Left) == (DesktopState {
            current_tab: (s.current_tab - 1) as usize,
            ..s
        }, ActionView::Continue),
        s.current_tab == 0 ==> s.on_key(Key::Left) == (DesktopState { current_tab: 2, ..s }, ActionView::Continue),
        s.current_tab == 1 ==> s.on_key(Key::Char(c)) == (DesktopState {
            input: s.input + seq![c],
            ..s
        }, ActionView::Continue),
        s.current_tab == 1 && s.input.len() > 0 ==> s.on_key(Key::Backspace) == (DesktopState {
            input: s.input.take(s.input.len() - 1),
            ..s
        }, ActionView::Continue),
        s.current_tab == 2 ==> s.on_key(Key::Char('1')).0.theme == Theme::Blue && s.on_key(
            Key::Char('2'),
        ).0.theme == Theme::Black && s.on_key(Key::Char('3')).0.theme == Theme::DarkGray
            && s.on_key(Key::Char('4')).0.target_fps == 30 && s.on_key(Key::Char('5')).0.target_fps
            == 60 && s.on_key(Key::Char('6')).0.target_fps == 144 && s.on_key(
            Key::Char('7'),
        ).0.target_fps == 9999,
        s.current_tab == 2 && !(c == '1' || c == '2' || c == '3' || c == '4' || c == '5' || c == '6'
            || c == '7') ==> s.on_key(Key::Char(c)) == (s, ActionView::Continue),
{
    assert(s.input + seq![c] =~= s.input.push(c));
    if s.input.len() > 0 {
        assert(s.input.drop_last() =~= s.input.take(s.input.len() - 1));
    }
}

/// The taskbar entries lie on one row, left to right, each of at least
/// twelve cells and with a cell between each two, so a click hits at most
/// one of them.
pub proof fn taskbar_entries_apart(x: u16, y: u16)
    requires
        taskbar_fits(x, y),
    ensures
        tab_areas_of(x, y).len() == 4,
        forall|i: int|
            0 <= i < 4 ==> #[trigger] tab_areas_of(x, y)[i].y == y + 1
                && tab_areas_of(x, y)[i].start_x + 12 <= tab_areas_of(x, y)[i].end_x,
        forall|i: int, j: int|
            0 <= i < j < 4 ==> #[trigger] tab_areas_of(x, y)[i].end_x
                < #[trigger] tab_areas_of(x, y)[j].start_x,
{
}

/// A click on the first cell of a taskbar entry drawn for the taskbar
/// selects that entry's tab, and on the exit entry leaves the desktop;
/// nothing else changes.
pub proof fn click_selects_entry(s: DesktopState, x: u16, y: u16, i: int)
    requires
        taskbar_fits(x, y),
        0 <= i < 4,
    ensures
        ({
            let areas = tab_areas_of(x, y);
            let (t, a) = s.on_click(areas, areas[i].start_x, areas[i].y);
            &&& i < 3 ==> t == DesktopState { current_tab: i as usize, ..s } && a
                == ActionView::Continue
            &&& i == 3 ==> a == ActionView::Exit && t == DesktopState {
                current_tab: t.current_tab,
                ..s
            }
        }),
{
    let areas = tab_areas_of(x, y);
    let column = areas[i].start_x;
    let row = areas[i].y;
    taskbar_entries_apart(x, y);
    assert forall|j: int| 0 <= j < 4 && j != i implies !hit(areas[j], column, row) by {
        if j < i {
            assert(areas[j].end_x < areas[i].start_x);
        } else {
            assert(areas[i].end_x < areas[j].start_x);
        }
    }
    reveal_with_fuel(click_scan, 5);
}

/// A click on any cell of a taskbar entry, as drawn for the taskbar at
/// (`x`, `y`), selects that entry's tab, and on the exit entry leaves the
/// desktop; a click on the entries' row outside every entry, or on another
/// row, changes nothing.
pub proof fn click_anywhere_on_entry(s: DesktopState, x: u16, y: u16, column: u16, row: u16)
    requires
        taskbar_fits(x, y),
    ensures
        ({
            let areas = tab_areas_of(x, y);
            let (t, a) = s.on_click(areas, column, row);
            &&& forall|i: int|
                0 <= i < 3 && row == y + 1 && (#[trigger] areas[i]).start_x <= column
                    < areas[i].end_x ==> t == DesktopState { current_tab: i as usize, ..s } && a == ActionView::Continue
            &&& row == y + 1 && areas[3].start_x <= column < areas[3].end_x ==> a
                == ActionView::Exit && t == DesktopState { current_tab: t.current_tab, ..s }
            &&& (row != y + 1 || forall|i: int|
                0 <= i < 4 ==> !((#[trigger] areas[i]).start_x <= column < areas[i].end_x)) ==> t
                == s && a
                == ActionView::Continue
        }),
{
    let areas = tab_areas_of(x, y);
    taskbar_entries_apart(x, y);
    reveal_with_fuel(click_scan, 5);
    assert forall|i: int|
        0 <= i < 3 && row == y + 1 && (#[trigger] areas[i]).start_x <= column < areas[i].end_x implies (s.on_click(
        areas,
        column,
        row,
    ).0 == DesktopState { current_tab: i as usize, ..s } && s.on_click(areas, column, row).1
        == ActionView::Continue) by {
        assert forall|j: int| 0 <= j < 4 && j != i implies !hit(areas[j], column, row) by {
            if j < i {
                assert(areas[j].end_x < areas[i].start_x);
            } else {
                assert(areas[i].end_x < areas[j].start_x);
            }
        }
        assert(hit(areas[i], column, row));
    }
    if row == y + 1 && areas[3].start_x <= column < areas[3].end_x {
        assert forall|j: int| 0 <= j < 3 implies !hit(areas[j], column, row) by {
            assert(areas[j].end_x < areas[3].start_x);
        }
        assert(hit(areas[3], column, row));
    }
    if row != y + 1 || forall|i: int|
        0 <= i < 4 ==> !((#[trigger] areas[i]).start_x <= column < areas[i].end_x) {
        assert forall|j: int| 0 <= j < 4 implies !hit(areas[j], column, row) by {
            assert(areas[j].y == y + 1);
        }
    }
}

/// A command typed on the console and run: the command line is recorded
/// after the history, the host's output lines and an empty line follow
/// (or, for status 2, the console is cleared to one empty line), and the
/// input line is cleared.
pub proof fn command_round_trip(s: DesktopState, status: i32, output: Seq<char>)
    requires
        s.current_tab == 1,
        trim(s.input).len() > 0,
    ensures
        s.on_key(Key::Enter).1 == ActionView::RunCommand(trim(s.input)),
        s.on_key(Key::Enter).0.after_command(status, output) == (DesktopState {
            history: if status == 2 {
                seq![seq![]]
            } else {
                s.history.push(prompt() + s.input) + lines(output) + seq![seq![]]
            },
            input: seq![],
            ..s
        }),
{
}

proof fn lemma_click_scan_stays(
    tab: usize,
    areas: Seq<TaskbarArea>,
    column: u16,
    row: u16,
    k: nat,
    n: nat,
)
    requires
        k <= n <= areas.len(),
        click_scan(tab, areas, column, row, k).1,
    ensures
        click_scan(tab, areas, column, row, n) == click_scan(tab, areas, column, row, k),
    decreases n - k,
{
    if k < n {
        lemma_click_scan_stays(tab, areas, column, row, k, (n - 1) as nat);
    }
}

proof fn lemma_click_scan_tab(
    tab: usize,
    areas: Seq<TaskbarArea>,
    column: u16,
    row: u16,
    k: nat,
)
    requires
        k <= areas.len(),
    ensures
        tab <= 3 && areas.len() <= 4 ==> click_scan(tab, areas, column, row, k).0 <= 3,
    decreases k,
{
    if k > 0 {
        lemma_click_scan_tab(tab, areas, column, row, (k - 1) as nat);
    }
}

} // verus!
