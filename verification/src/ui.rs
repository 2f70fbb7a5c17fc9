//! The decisions of the terminal interface: what a key press does in the
//! session picker and in the name prompt, what the prompt shows, and where
//! the prompt box stands on the screen.
use vstd::prelude::*;
use crate::command::{opt_view, TmuxAction};
use crate::naming::{is_valid_name, name_verdict, validate_new_session_name};
use crate::text::{pop_char, push_char};

verus! {

/// A key press, as far as the interface tells keys apart.
#[derive(Debug, Clone, Copy, PartialEq, Eq, Structural)]
pub enum Key {
    /// A character key, with whether Control was held.
    Char { ch: char, control: bool },
    Esc,
    Up,
    Down,
    Enter,
    Backspace,
    /// Any other key.
    Other,
}

/// What the picker does after a key press. Positions `0..session_count`
/// are the sessions; position `session_count` is the "start new session"
/// entry.
#[derive(Debug, Clone, Copy, PartialEq, Eq, Structural)]
pub enum PickerStep {
    /// Move the highlight to this position.
    Select(usize),
    /// Leave without doing anything.
    Quit,
    /// Ask for the name of a new session.
    PromptNew,
    /// Attach to the session at this position.
    Attach(usize),
    /// Nothing changes.
    Stay,
}

/// What the name prompt does after a key press.
pub enum PromptStep {
    /// Keep asking.
    Continue,
    /// Give up without a name.
    Cancel,
    /// The accepted name.
    Submit(String),
}

/// The name prompt: what was typed so far, and the refusal shown for the
/// last name submitted, if any.
pub struct NamePrompt {
    pub input: String,
    pub error: Option<&'static str>,
}

/// A screen area: its top-left corner and its size, in cells.
#[derive(Debug, Clone, Copy, PartialEq, Eq, Structural)]
pub struct Rect {
    pub x: u16,
    pub y: u16,
    pub width: u16,
    pub height: u16,
}

/// Control-C.
pub open spec fn is_interrupt(key: Key) -> bool {
    key matches Key::Char { ch, control } && ch == 'c' && control
}

/// The character of a character key, whatever modifier was held.
pub open spec fn is_char(key: Key, c: char) -> bool {
    key matches Key::Char { ch, .. } && ch == c
}

/// The picker's step for `key` with `selected` highlighted.
pub open spec fn picker_outcome(selected: usize, session_count: usize, key: Key) -> PickerStep {
    if is_interrupt(key) || is_char(key, 'q') || key == Key::Esc {
        PickerStep::Quit
    } else if is_char(key, 'n') {
        PickerStep::PromptNew
    } else if key == Key::Up || is_char(key, 'k') {
        PickerStep::Select(if selected == 0 { 0 } else { (selected - 1) as usize })
    } else if key == Key::Down || is_char(key, 'j') {
        PickerStep::Select(if selected >= session_count { session_count } else { (selected + 1) as usize })
    } else if key == Key::Enter {
        if selected == session_count {
            PickerStep::PromptNew
        } else if selected < session_count {
            PickerStep::Attach(selected)
        } else {
            PickerStep::Stay
        }
    } else {
        PickerStep::Stay
    }
}

/// The picker's key table: Up and `k` move the highlight one place up, and
/// not past the first entry; Down and `j` move it one place down, and not
/// past the last, "new session", entry; Enter on a session attaches to it and
/// on the last entry asks for a name; `n` asks for a name; `q`, Esc and
/// Control-C quit; every other key changes nothing.
pub proof fn law_picker_keys(selected: usize, session_count: usize, key: Key)
    ensures
        (key == Key::Up || (key matches Key::Char { ch, .. } && ch == 'k')) && 0 < selected
            ==> picker_outcome(selected, session_count, key) == PickerStep::Select(
            (selected - 1) as usize,
        ),
        (key == Key::Up || (key matches Key::Char { ch, .. } && ch == 'k')) && selected == 0
            ==> picker_outcome(selected, session_count, key) == PickerStep::Select(0),
        (key == Key::Down || (key matches Key::Char { ch, .. } && ch == 'j')) && selected
            < session_count ==> picker_outcome(selected, session_count, key) == PickerStep::Select(
            (selected + 1) as usize,
        ),
        (key == Key::Down || (key matches Key::Char { ch, .. } && ch == 'j')) && selected
            >= session_count ==> picker_outcome(selected, session_count, key)
            == PickerStep::Select(session_count),
        key == Key::Enter && selected < session_count ==> picker_outcome(
            selected,
            session_count,
            key,
        ) == PickerStep::Attach(selected),
        key == Key::Enter && selected == session_count ==> picker_outcome(
            selected,
            session_count,
            key,
        ) == PickerStep::PromptNew,
        key == Key::Enter && selected > session_count ==> picker_outcome(
            selected,
            session_count,
            key,
        ) == PickerStep::Stay,
        (key matches Key::Char { ch, .. } && ch == 'n') ==> picker_outcome(
            selected,
            session_count,
            key,
        ) == PickerStep::PromptNew,
        (key == Key::Esc || (key matches Key::Char { ch, .. } && ch == 'q') || key == Key::Char {
            ch: 'c',
            control: true,
        }) ==> picker_outcome(selected, session_count, key) == PickerStep::Quit,
        (key == Key::Backspace || key == Key::Other || (key matches Key::Char { ch, control } && ch
            != 'q' && ch != 'n' && ch != 'k' && ch != 'j' && !(ch == 'c' && control)))
            ==> picker_outcome(selected, session_count, key) == PickerStep::Stay,
{
}

/// What a key press does in the session picker: `q`, Esc and Control-C
/// quit; `n` asks for a new session; Up/`k` and Down/`j` move the highlight
/// within the list and its last "new session" entry; Enter attaches to the
/// highlighted session, or asks for a new one on the last entry.
pub fn picker_step(selected: usize, session_count: usize, key: Key) -> (res: PickerStep)
    ensures
        res == picker_outcome(selected, session_count, key),
        selected <= session_count ==> match res {
            PickerStep::Select(n) => n <= session_count,
            PickerStep::Attach(n) => n < session_count,
            _ => true,
        },
        (key == Key::Up || (key matches Key::Char { ch, .. } && ch == 'k')) && 0 < selected
            ==> res == PickerStep::Select((selected - 1) as usize),
        (key == Key::Up || (key matches Key::Char { ch, .. } && ch == 'k')) && selected == 0
            ==> res == PickerStep::Select(0),
        (key == Key::Down || (key matches Key::Char { ch, .. } && ch == 'j')) && selected
            < session_count ==> res == PickerStep::Select((selected + 1) as usize),
        (key == Key::Down || (key matches Key::Char { ch, .. } && ch == 'j')) && selected
            >= session_count ==> res == PickerStep::Select(session_count),
        key == Key::Enter && selected < session_count ==> res == PickerStep::Attach(selected),
        key == Key::Enter && selected == session_count ==> res == PickerStep::PromptNew,
{
    proof {
        law_picker_keys(selected, session_count, key);
    }
    match key {
        Key::Char { ch: 'c', control: true } => PickerStep::Quit,
        Key::Char { ch: 'q', .. } | Key::Esc => PickerStep::Quit,
        Key::Char { ch: 'n', .. } => PickerStep::PromptNew,
        Key::Up | Key::Char { ch: 'k', .. } => PickerStep::Select(
            if selected == 0 {
                0
            } else {
                selected - 1
            },
        ),
        Key::Down | Key::Char { ch: 'j', .. } => PickerStep::Select(
            if selected >= session_count {
                session_count
            } else {
                selected + 1
            },
        ),
        Key::Enter => {
            if selected == session_count {
                PickerStep::PromptNew
            } else if selected < session_count {
                PickerStep::Attach(selected)
            } else {
                PickerStep::Stay
            }
        },
        _ => PickerStep::Stay,
    }
}

impl NamePrompt {
    /// A prompt with nothing typed and no refusal shown.
    pub fn new() -> (res: NamePrompt)
        ensures
            res.input@.len() == 0,
            res.error is None,
    {
        NamePrompt { input: String::new(), error: None }
    }

    /// What a key press does in the name prompt: Esc and Control-C cancel;
    /// Enter submits the typed name if it is accepted, and otherwise shows
    /// why not; Backspace deletes the last character and a character key
    /// types its character, both clearing the refusal; other keys do nothing.
    pub fn handle_key(&mut self, key: Key) -> (res: PromptStep)
        ensures
            res matches PromptStep::Submit(name) ==> is_valid_name(name@),
            is_interrupt(key) || key == Key::Esc ==> res is Cancel && *final(self) == *old(self),
            key == Key::Enter ==> match name_verdict(old(self).input@) {
                Ok(()) => res matches PromptStep::Submit(name) && name@ == old(self).input@
                    && *final(self) == *old(self),
                Err(msg) => res is Continue && final(self).input == old(self).input
                    && opt_view(final(self).error) == Some(msg),
            },
            key == Key::Backspace ==> res is Continue && final(self).input@ == (if old(
                self,
            ).input@.len() == 0 {
                old(self).input@
            } else {
                old(self).input@.drop_last()
            }) && final(self).error is None,
            (key matches Key::Char { ch, control } && !(ch == 'c' && control)) ==> res is Continue
                && final(self).input@ == old(self).input@.push(key->ch) && final(self).error is None,
            key == Key::Up || key == Key::Down || key == Key::Other ==> res is Continue
                && *final(self) == *old(self),
    {
        match key {
            Key::Char { ch: 'c', control: true } => PromptStep::Cancel,
            Key::Esc => PromptStep::Cancel,
            Key::Enter => match validate_new_session_name(self.input.as_str()) {
                Ok(()) => PromptStep::Submit(self.input.clone()),
                Err(message) => {
                    self.error = Some(message);
                    PromptStep::Continue
                },
            },
            Key::Backspace => {
                let _ = pop_char(&mut self.input);
                self.error = None;
                PromptStep::Continue
            },
            Key::Char { ch, .. } => {
                push_char(&mut self.input, ch);
                self.error = None;
                PromptStep::Continue
            },
            _ => PromptStep::Continue,
        }
    }
}

/// The first screen the user sees after the listing.
#[derive(Debug, Clone, Copy, PartialEq, Eq, Structural)]
pub enum Screen {
    /// The list of sessions to pick from.
    Picker,
    /// The prompt for a new session's name, shown at once.
    NamePrompt,
}

/// When the remote host has no session, the name prompt opens at once;
/// otherwise the picker opens.
pub fn start_screen(session_count: usize) -> (res: Screen)
    ensures
        (res == Screen::NamePrompt) == (session_count == 0),
        (res == Screen::Picker) == (session_count > 0),
{
    if session_count == 0 {
        Screen::NamePrompt
    } else {
        Screen::Picker
    }
}

/// What the prompt shown at once leads to: the named new session, or
/// nothing when the prompt was cancelled.
pub fn action_after_start_prompt(name: Option<String>) -> (res: TmuxAction)
    ensures
        match name {
            Some(n) => res matches TmuxAction::New(m) && m@ == n@,
            None => res is Quit,
        },
{
    match name {
        Some(n) => TmuxAction::New(n),
        None => TmuxAction::Quit,
    }
}

/// What the prompt opened from the picker leads to: the named new session,
/// or `None`, back to the picker, when the prompt was cancelled.
pub fn action_after_picker_prompt(name: Option<String>) -> (res: Option<TmuxAction>)
    ensures
        match name {
            Some(n) => res matches Some(TmuxAction::New(m)) && m@ == n@,
            None => res is None,
        },
{
    match name {
        Some(n) => Some(TmuxAction::New(n)),
        None => None,
    }
}

/// The action of attaching to the session at `position` of the list.
pub fn attach_selected(sessions: &[String], position: usize) -> (res: TmuxAction)
    requires
        position < sessions@.len(),
    ensures
        res matches TmuxAction::Attach(s) && s@ == sessions@[position as int]@,
{
    TmuxAction::Attach(sessions[position].clone())
}

/// The picker's title, above the remote host.
pub const PICKER_TITLE: &'static str = "tmussh";

/// The title of the session list.
pub const SESSIONS_TITLE: &'static str = "Sessions";

/// The mark in front of the last entry of the list.
pub const NEW_SESSION_MARK: &'static str = "+";

/// The last entry of the list, after its mark.
pub const NEW_SESSION_LABEL: &'static str = " start new session";

/// The keys the picker takes.
pub const PICKER_HELP: &'static str = "Up/Down or j/k move | Enter attach | n new | Esc or q quit";

/// The title of the prompt opened from the picker.
pub const NEW_SESSION_TITLE: &'static str = "New tmux session";

/// The start of the prompt's title when the host has no session.
pub const NO_SESSIONS_TITLE: &'static str = "No tmux sessions found on ";

/// The title of the prompt shown at once when `destination` has no session.
pub fn no_sessions_title(destination: &str) -> (res: String)
    ensures
        res@ == NO_SESSIONS_TITLE@ + destination@,
{
    let mut out = NO_SESSIONS_TITLE.to_owned();
    out.append(destination);
    out
}

/// The label above the typed name.
pub const PROMPT_LABEL: &'static str = "Session name";

/// What the prompt shows for an empty name, so that the line keeps its place.
pub const EMPTY_INPUT: &'static str = " ";

/// The reminder of the name rule, shown while no refusal is.
pub const NAME_HINT: &'static str = "Letters, numbers, underscores, periods, hyphens";

/// The keys the prompt takes.
pub const PROMPT_KEYS: &'static str = "Enter create | Esc cancel";

/// The lines of the name prompt: the label, the typed name (a space when
/// empty), a blank line, the refusal or else the name rule, a blank line,
/// and the keys.
pub open spec fn prompt_lines_text(input: Seq<char>, error: Option<Seq<char>>) -> Seq<Seq<char>> {
    seq![
        PROMPT_LABEL@,
        if input.len() == 0 { EMPTY_INPUT@ } else { input },
        Seq::<char>::empty(),
        match error {
            Some(m) => m,
            None => NAME_HINT@,
        },
        Seq::<char>::empty(),
        PROMPT_KEYS@,
    ]
}

/// The lines that the name prompt shows; the fourth is the refusal when
/// `error` holds one.
pub fn name_prompt_lines(input: &str, error: Option<&str>) -> (res: Vec<String>)
    ensures
        res@.map_values(|s: String| s@) == prompt_lines_text(input@, opt_view(error)),
{
    let shown = if input.is_empty() {
        EMPTY_INPUT.to_owned()
    } else {
        input.to_owned()
    };
    let notice = match error {
        Some(message) => message.to_owned(),
        None => NAME_HINT.to_owned(),
    };
    let lines = vec![
        PROMPT_LABEL.to_owned(),
        shown,
        String::new(),
        notice,
        String::new(),
        PROMPT_KEYS.to_owned(),
    ];
    proof {
        assert(lines@.map_values(|s: String| s@) =~= prompt_lines_text(input@, opt_view(error)));
    }
    lines
}

/// The size of the prompt box along one axis: the whole extent when it is
/// under `small`, else the extent capped at `wanted`.
pub open spec fn box_extent(extent: u16, small: u16, wanted: u16) -> u16 {
    if extent < small {
        extent
    } else if extent < wanted {
        extent
    } else {
        wanted
    }
}

/// The prompt box: at most `max_width` by `height` cells, the whole width of
/// an area under 20 cells wide and the whole height of one under 7 cells
/// high, centred in `area` (rounding towards the top left).
pub open spec fn centered_rect_spec(area: Rect, max_width: u16, height: u16) -> Rect {
    let w = box_extent(area.width, 20, max_width);
    let h = box_extent(area.height, 7, height);
    Rect {
        x: (area.x + (area.width - w) / 2) as u16,
        y: (area.y + (area.height - h) / 2) as u16,
        width: w,
        height: h,
    }
}

/// The prompt box, centred in `area`.
pub fn centered_rect(area: Rect, max_width: u16, height: u16) -> (res: Rect)
    requires
        area.x + (area.width - box_extent(area.width, 20, max_width)) / 2 <= u16::MAX,
        area.y + (area.height - box_extent(area.height, 7, height)) / 2 <= u16::MAX,
    ensures
        res == centered_rect_spec(area, max_width, height),
        area.x <= res.x && res.x + res.width <= area.x + area.width,
        area.y <= res.y && res.y + res.height <= area.y + area.height,
        res.width <= max_width || area.width < 20,
        res.height <= height || area.height < 7,
        area.width < 20 ==> res.width == area.width,
        area.width >= 20 ==> res.width == (if area.width <= max_width {
            area.width
        } else {
            max_width
        }),
        area.height < 7 ==> res.height == area.height,
        area.height >= 7 ==> res.height == (if area.height <= height {
            area.height
        } else {
            height
        }),
        res.x == area.x + (area.width - res.width) / 2,
        res.y == area.y + (area.height - res.height) / 2,
{
    let width = if area.width < 20 {
        area.width
    } else if area.width < max_width {
        area.width
    } else {
        max_width
    };
    let box_height = if area.height < 7 {
        area.height
    } else if area.height < height {
        area.height
    } else {
        height
    };
    Rect {
        x: area.x + (area.width - width) / 2,
        y: area.y + (area.height - box_height) / 2,
        width,
        height: box_height,
    }
}

} // verus!
