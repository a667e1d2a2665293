//! The state of the operator's console: what is selected and shown, what is
//! being edited, and the session log.

use vstd::prelude::*;
use crate::artifact::{ArtifactConfig, ArtifactKind};
use crate::clock::now_log_stamp;
use crate::text::{concat2, concat3, lines_of, push_char};

verus! {

/// What the keyboard is currently used for.
#[derive(Clone, Copy, Debug, PartialEq, Eq, Structural)]
pub enum UiMode {
    Normal,
    EditInput,
    EditOutput,
    LanguageMenu,
    AltoVersionMenu,
    CustomLangInput,
}

/// The pane that takes the movement keys.
#[derive(Clone, Copy, Debug, PartialEq, Eq, Structural)]
pub enum FocusedPane {
    Jobs,
    Detail,
    Log,
}

/// The most lines the session log holds.
pub const LOG_LIMIT: usize = 1000;

/// The number of lines kept when the log has grown over its limit.
pub const LOG_KEPT: usize = 500;

/// The number of log lines taken to be visible.
pub const LOG_VISIBLE: usize = 20;

/// How close to the end the log must be scrolled for it to follow new lines.
pub const LOG_FOLLOW_MARGIN: usize = 30;

/// The session log: its lines, and the line it is scrolled to.
#[derive(Clone, Debug, PartialEq, Eq)]
pub struct SessionLog {
    pub lines: Vec<String>,
    pub scroll: usize,
}

/// The lines of the log after `entry` was added: the entry comes last, and a
/// log grown over `LOG_LIMIT` lines keeps its last `LOG_KEPT`.
pub open spec fn lines_after_push(lines: Seq<Seq<char>>, entry: Seq<char>) -> Seq<Seq<char>> {
    let all = lines.push(entry);
    if all.len() > LOG_LIMIT {
        all.skip(all.len() - LOG_KEPT)
    } else {
        all
    }
}

/// The line the log is scrolled to once it holds `total` lines: a log that
/// stands within `LOG_FOLLOW_MARGIN` lines of its end follows it, so that
/// the last `LOG_VISIBLE` lines show; a log scrolled further up stays.
pub open spec fn scroll_after_push(scroll: usize, total: nat) -> usize {
    if scroll + LOG_FOLLOW_MARGIN >= total && total > LOG_VISIBLE {
        (total - LOG_VISIBLE) as usize
    } else {
        scroll
    }
}

impl SessionLog {
    /// An empty log.
    pub fn new() -> (log: Self)
        ensures
            log.lines@.len() == 0,
            log.scroll == 0,
    {
        SessionLog { lines: Vec::new(), scroll: 0 }
    }

    /// Whether `self` is `before` with `entry` added.
    pub open spec fn is_push_of(&self, before: SessionLog, entry: Seq<char>) -> bool {
        &&& lines_of(self.lines@) == lines_after_push(lines_of(before.lines@), entry)
        &&& self.scroll == scroll_after_push(before.scroll, self.lines@.len() as nat)
    }

    /// Adds a line that is already stamped.
    pub fn push_entry(&mut self, entry: String)
        ensures
            final(self).is_push_of(*old(self), entry@),
    {
        self.lines.push(entry);
        let ghost all = lines_of(self.lines@);
        assert(all =~= lines_of(old(self).lines@).push(entry@));
        if self.lines.len() > LOG_LIMIT {
            let extra: usize = self.lines.len() - LOG_KEPT;
            let kept = self.lines.split_off(extra);
            self.lines = kept;
            assert(lines_of(self.lines@) =~= all.skip(all.len() - LOG_KEPT));
        }
        let total = self.lines.len();
        if self.scroll >= total.saturating_sub(LOG_FOLLOW_MARGIN) {
            if total > LOG_VISIBLE {
                self.scroll = total - LOG_VISIBLE;
            }
        }
    }

    /// Adds `line` to the log, with the time of day in front of it.
    pub fn push_log(&mut self, line: &str)
        ensures
            exists|stamp: Seq<char>| final(self).is_push_of(*old(self), stamp + line@),
    {
        let stamp = now_log_stamp();
        let entry = concat2(stamp.as_str(), line);
        self.push_entry(entry);
    }

    /// Scrolls towards the start, stopping there.
    pub fn scroll_up(&mut self, lines: usize)
        ensures
            final(self).lines == old(self).lines,
            final(self).scroll == (if old(self).scroll >= lines {
                old(self).scroll - lines
            } else {
                0
            }),
    {
        self.scroll = self.scroll.saturating_sub(lines);
    }

    /// Scrolls towards the end, as far as the count reaches.
    pub fn scroll_down(&mut self, lines: usize)
        ensures
            final(self).lines == old(self).lines,
            final(self).scroll == (if old(self).scroll + lines <= usize::MAX {
                old(self).scroll + lines
            } else {
                usize::MAX as int
            }),
    {
        self.scroll = self.scroll.saturating_add(lines);
    }
}

/// The job selected after one step forward: the next one, and after the last
/// the first.
pub open spec fn next_index(selected: usize, count: usize) -> usize {
    if count == 0 {
        selected
    } else {
        ((selected + 1) % (count as int)) as usize
    }
}

/// The job selected after one step back: the one before, and before the
/// first the last.
pub open spec fn prev_index(selected: usize, count: usize) -> usize {
    if count == 0 {
        selected
    } else if selected == 0 {
        (count - 1) as usize
    } else {
        (selected - 1) as usize
    }
}

/// The job selected after `steps` steps forward.
pub open spec fn stepped_forward(selected: usize, count: usize, steps: nat) -> usize
    decreases steps,
{
    if steps == 0 {
        selected
    } else {
        next_index(stepped_forward(selected, count, (steps - 1) as nat), count)
    }
}

/// The job selected after `steps` steps back.
pub open spec fn stepped_back(selected: usize, count: usize, steps: nat) -> usize
    decreases steps,
{
    if steps == 0 {
        selected
    } else {
        prev_index(stepped_back(selected, count, (steps - 1) as nat), count)
    }
}

/// Steps the selection forward through `count` jobs.
pub fn next_job(selected: usize, count: usize) -> (next: usize)
    ensures
        next == next_index(selected, count),
        count > 0 ==> next < count,
{
    if count == 0 {
        selected
    } else {
        ((selected as u128 + 1) % (count as u128)) as usize
    }
}

/// Steps the selection back through `count` jobs.
pub fn prev_job(selected: usize, count: usize) -> (prev: usize)
    ensures
        prev == prev_index(selected, count),
        selected < count ==> prev < count,
{
    if count == 0 {
        selected
    } else if selected == 0 {
        count - 1
    } else {
        selected - 1
    }
}

/// Steps the selection forward `steps` times.
pub fn jobs_forward(selected: usize, count: usize, steps: usize) -> (after: usize)
    ensures
        after == stepped_forward(selected, count, steps as nat),
{
    let mut after = selected;
    let mut i: usize = 0;
    while i < steps
        invariant
            i <= steps,
            after == stepped_forward(selected, count, i as nat),
        decreases steps - i,
    {
        after = next_job(after, count);
        i += 1;
    }
    after
}

/// Steps the selection back `steps` times.
pub fn jobs_back(selected: usize, count: usize, steps: usize) -> (after: usize)
    ensures
        after == stepped_back(selected, count, steps as nat),
{
    let mut after = selected;
    let mut i: usize = 0;
    while i < steps
        invariant
            i <= steps,
            after == stepped_back(selected, count, i as nat),
        decreases steps - i,
    {
        after = prev_job(after, count);
        i += 1;
    }
    after
}

/// The menu entry under the cursor after one step up through `len` entries:
/// the one above, from the first the last, and the first where nothing was
/// under the cursor.
pub open spec fn menu_up(cursor: Option<usize>, len: usize) -> Option<usize> {
    match cursor {
        Some(at) => if at > 0 {
            Some((at - 1) as usize)
        } else if len > 0 {
            Some((len - 1) as usize)
        } else {
            Some(0)
        },
        None => Some(0),
    }
}

/// The menu entry under the cursor after one step down through `len`
/// entries: the one below, from the last the first, and the first where
/// nothing was under the cursor.
pub open spec fn menu_down(cursor: Option<usize>, len: usize) -> Option<usize> {
    match cursor {
        Some(at) => if at + 1 < len {
            Some((at + 1) as usize)
        } else {
            Some(0)
        },
        None => Some(0),
    }
}

/// Moves a menu cursor one entry up.
pub fn scroll_menu_up(cursor: Option<usize>, len: usize) -> (moved: Option<usize>)
    ensures
        moved == menu_up(cursor, len),
{
    match cursor {
        Some(at) => if at > 0 {
            Some(at - 1)
        } else if len > 0 {
            Some(len - 1)
        } else {
            Some(0)
        },
        None => Some(0),
    }
}

/// Moves a menu cursor one entry down.
pub fn scroll_menu_down(cursor: Option<usize>, len: usize) -> (moved: Option<usize>)
    ensures
        moved == menu_down(cursor, len),
{
    match cursor {
        Some(at) => if len > 0 && at < len - 1 {
            Some(at + 1)
        } else {
            Some(0)
        },
        None => Some(0),
    }
}

/// The pane that gets the focus after `pane`.
pub fn next_focus(pane: FocusedPane) -> (next: FocusedPane)
    ensures
        next == (match pane {
            FocusedPane::Jobs => FocusedPane::Detail,
            FocusedPane::Detail => FocusedPane::Log,
            FocusedPane::Log => FocusedPane::Jobs,
        }),
{
    match pane {
        FocusedPane::Jobs => FocusedPane::Detail,
        FocusedPane::Detail => FocusedPane::Log,
        FocusedPane::Log => FocusedPane::Jobs,
    }
}

/// The pane that had the focus before `pane`.
pub fn prev_focus(pane: FocusedPane) -> (prev: FocusedPane)
    ensures
        prev == (match pane {
            FocusedPane::Jobs => FocusedPane::Log,
            FocusedPane::Detail => FocusedPane::Jobs,
            FocusedPane::Log => FocusedPane::Detail,
        }),
        next_focus_of(prev) == pane,
{
    match pane {
        FocusedPane::Jobs => FocusedPane::Log,
        FocusedPane::Detail => FocusedPane::Jobs,
        FocusedPane::Log => FocusedPane::Detail,
    }
}

/// The pane after `pane`.
pub open spec fn next_focus_of(pane: FocusedPane) -> FocusedPane {
    match pane {
        FocusedPane::Jobs => FocusedPane::Detail,
        FocusedPane::Detail => FocusedPane::Log,
        FocusedPane::Log => FocusedPane::Jobs,
    }
}

/// What `str::trim` leaves of a text.
pub uninterp spec fn trimmed(text: Seq<char>) -> Seq<char>;

/// `str::trim`: the text without the white space at its start and end.
#[verifier::external_body]
fn trim(text: &str) -> (out: String)
    ensures
        out@ == trimmed(text@),
{
    text.trim().to_string()
}

/// `String::pop`: takes the last character off, where there is one.
#[verifier::external_body]
fn pop_char(s: &mut String) -> (last: Option<char>)
    ensures
        old(s)@.len() == 0 ==> last is None && final(s)@ == old(s)@,
        old(s)@.len() > 0 ==> last == Some(old(s)@.last()) && final(s)@ == old(s)@.drop_last(),
{
    s.pop()
}

/// A key, as far as the console tells keys apart.
#[derive(Clone, Copy, Debug, PartialEq, Eq, Structural)]
pub enum Key {
    Char(char),
    Enter,
    Esc,
    Backspace,
    Up,
    Down,
    PageUp,
    PageDown,
    Tab,
    BackTab,
    F(u8),
    Other,
}

/// What a key asks for while nothing is being edited.
#[derive(Clone, Copy, Debug, PartialEq, Eq, Structural)]
pub enum Action {
    Quit,
    Up,
    Down,
    PageUp,
    PageDown,
    NextFocus,
    PrevFocus,
    Toggle(ArtifactKind),
    EditInput,
    EditOutput,
    LanguageMenu,
    AltoVersionMenu,
    ProcessSelected,
    ProcessAllPending,
    ForceRerunSelected,
    ForceRerunAll,
    Nothing,
}

/// The meaning of each key while nothing is being edited.
pub open spec fn action_of(key: Key) -> Action {
    match key {
        Key::Char(c) => if c == 'q' {
            Action::Quit
        } else if c == 'm' {
            Action::Toggle(ArtifactKind::MasterDerivative)
        } else if c == 'u' {
            Action::Toggle(ArtifactKind::UserDerivative)
        } else if c == 't' {
            Action::Toggle(ArtifactKind::PlainText)
        } else if c == 'l' {
            Action::Toggle(ArtifactKind::LayoutXml)
        } else if c == 'i' || c == 'I' {
            Action::EditInput
        } else if c == 'o' || c == 'O' {
            Action::EditOutput
        } else if c == 'L' {
            Action::LanguageMenu
        } else if c == 'A' {
            Action::AltoVersionMenu
        } else if c == 'a' {
            Action::ProcessAllPending
        } else if c == 'F' {
            Action::ForceRerunSelected
        } else if c == 'R' {
            Action::ForceRerunAll
        } else {
            Action::Nothing
        },
        Key::Up => Action::Up,
        Key::Down => Action::Down,
        Key::PageUp => Action::PageUp,
        Key::PageDown => Action::PageDown,
        Key::Tab => Action::NextFocus,
        Key::BackTab => Action::PrevFocus,
        Key::Enter => Action::ProcessSelected,
        _ => Action::Nothing,
    }
}

/// Reads a key while nothing is being edited.
pub fn normal_key_action(key: Key) -> (action: Action)
    ensures
        action == action_of(key),
{
    match key {
        Key::Char(c) => if c == 'q' {
            Action::Quit
        } else if c == 'm' {
            Action::Toggle(ArtifactKind::MasterDerivative)
        } else if c == 'u' {
            Action::Toggle(ArtifactKind::UserDerivative)
        } else if c == 't' {
            Action::Toggle(ArtifactKind::PlainText)
        } else if c == 'l' {
            Action::Toggle(ArtifactKind::LayoutXml)
        } else if c == 'i' || c == 'I' {
            Action::EditInput
        } else if c == 'o' || c == 'O' {
            Action::EditOutput
        } else if c == 'L' {
            Action::LanguageMenu
        } else if c == 'A' {
            Action::AltoVersionMenu
        } else if c == 'a' {
            Action::ProcessAllPending
        } else if c == 'F' {
            Action::ForceRerunSelected
        } else if c == 'R' {
            Action::ForceRerunAll
        } else {
            Action::Nothing
        },
        Key::Up => Action::Up,
        Key::Down => Action::Down,
        Key::PageUp => Action::PageUp,
        Key::PageDown => Action::PageDown,
        Key::Tab => Action::NextFocus,
        Key::BackTab => Action::PrevFocus,
        Key::Enter => Action::ProcessSelected,
        _ => Action::Nothing,
    }
}

/// Whether the screen is drawn afresh after a key: after every key that
/// means something, but for the one that ends the session.
pub fn needs_redraw(action: Action) -> (redraw: bool)
    ensures
        redraw == !(action is Quit || action is Nothing),
{
    match action {
        Action::Quit => false,
        Action::Nothing => false,
        _ => true,
    }
}

/// The position of the first entry of `list` that reads `wanted`, or the
/// first position where none does.
pub fn position_or_first(list: &Vec<String>, wanted: &str) -> (at: usize)
    ensures
        (at < list@.len() && list@[at as int]@ == wanted@ && forall|i: int|
            0 <= i < at ==> (#[trigger] list@[i])@ != wanted@) || (at == 0 && forall|i: int|
            0 <= i < list@.len() ==> (#[trigger] list@[i])@ != wanted@),
{
    let needle = String::from_str(wanted);
    let mut i: usize = 0;
    while i < list.len()
        invariant
            i <= list.len(),
            needle@ == wanted@,
            forall|j: int| 0 <= j < i ==> (#[trigger] list@[j])@ != wanted@,
        decreases list.len() - i,
    {
        if list[i] == needle {
            return i;
        }
        i += 1;
    }
    0
}

/// The layout format versions the console offers, newest first.
pub fn alto_versions() -> (versions: Vec<String>)
    ensures
        lines_of(versions@) == seq![
            "4.4"@,
            "4.3"@,
            "4.2"@,
            "4.1"@,
            "4.0"@,
            "3.0"@,
            "2.1"@,
            "2.0"@,
            "1.4"@,
            "1.3"@,
            "1.2"@,
            "1.1"@,
            "1.0"@,
        ],
{
    let mut versions: Vec<String> = Vec::new();
    versions.push(String::from_str("4.4"));
    versions.push(String::from_str("4.3"));
    versions.push(String::from_str("4.2"));
    versions.push(String::from_str("4.1"));
    versions.push(String::from_str("4.0"));
    versions.push(String::from_str("3.0"));
    versions.push(String::from_str("2.1"));
    versions.push(String::from_str("2.0"));
    versions.push(String::from_str("1.4"));
    versions.push(String::from_str("1.3"));
    versions.push(String::from_str("1.2"));
    versions.push(String::from_str("1.1"));
    versions.push(String::from_str("1.0"));
    versions
}

/// The console of one session.
#[derive(Clone, Debug, PartialEq, Eq)]
pub struct Console {
    /// Position of the selected job.
    pub selected: usize,
    pub focus: FocusedPane,
    pub mode: UiMode,
    pub detail_scroll: usize,
    /// The text of the path being edited.
    pub edit_buffer: String,
    /// The text of the language combination being typed.
    pub custom_lang_input: String,
    pub language_cursor: Option<usize>,
    pub alto_cursor: Option<usize>,
    /// The language tag in force.
    pub lang: String,
    /// The layout format version in force.
    pub alto_version: String,
    pub config: ArtifactConfig,
    pub log: SessionLog,
}

/// A path the operator has entered.
#[derive(Clone, Debug, PartialEq, Eq)]
pub enum EditRequest {
    /// A new input root.
    Input(String),
    /// A new output root.
    Output(String),
    /// Nothing was being edited.
    Nothing,
}

/// `cursor` after `steps` steps up.
pub open spec fn menu_up_by(cursor: Option<usize>, len: usize, steps: nat) -> Option<usize>
    decreases steps,
{
    if steps == 0 {
        cursor
    } else {
        menu_up(menu_up_by(cursor, len, (steps - 1) as nat), len)
    }
}

/// `cursor` after `steps` steps down.
pub open spec fn menu_down_by(cursor: Option<usize>, len: usize, steps: nat) -> Option<usize>
    decreases steps,
{
    if steps == 0 {
        cursor
    } else {
        menu_down(menu_down_by(cursor, len, (steps - 1) as nat), len)
    }
}

/// Where a menu key takes the cursor: the arrows one entry, the page keys
/// five; other keys leave it.
pub open spec fn menu_cursor_after(cursor: Option<usize>, len: usize, key: Key) -> Option<usize> {
    match key {
        Key::Up => menu_up(cursor, len),
        Key::Down => menu_down(cursor, len),
        Key::PageUp => menu_up_by(cursor, len, 5),
        Key::PageDown => menu_down_by(cursor, len, 5),
        _ => cursor,
    }
}

fn move_menu_cursor(cursor: Option<usize>, len: usize, key: Key) -> (moved: Option<usize>)
    ensures
        moved == menu_cursor_after(cursor, len, key),
{
    match key {
        Key::Up => scroll_menu_up(cursor, len),
        Key::Down => scroll_menu_down(cursor, len),
        Key::PageUp => {
            let mut moved = cursor;
            let mut i: usize = 0;
            while i < 5
                invariant
                    i <= 5,
                    moved == menu_up_by(cursor, len, i as nat),
                decreases 5 - i,
            {
                moved = scroll_menu_up(moved, len);
                i += 1;
            }
            moved
        },
        Key::PageDown => {
            let mut moved = cursor;
            let mut i: usize = 0;
            while i < 5
                invariant
                    i <= 5,
                    moved == menu_down_by(cursor, len, i as nat),
                decreases 5 - i,
            {
                moved = scroll_menu_down(moved, len);
                i += 1;
            }
            moved
        },
        _ => cursor,
    }
}

/// The name of a kind in the message on its switch.
pub open spec fn kind_title(kind: ArtifactKind) -> Seq<char> {
    match kind {
        ArtifactKind::MasterDerivative => "AC (Master) "@,
        ArtifactKind::UserDerivative => "UC (User) "@,
        ArtifactKind::PlainText => "TXT "@,
        ArtifactKind::LayoutXml => "ALTO "@,
    }
}

/// The message on a switch that now stands at `on`.
pub open spec fn toggle_message(kind: ArtifactKind, on: bool, alto_version: Seq<char>) -> Seq<char> {
    kind_title(kind) + (if on {
        "ON"@
    } else {
        "OFF"@
    }) + (if kind is LayoutXml {
        " (verze "@ + alto_version + ")"@
    } else {
        Seq::<char>::empty()
    })
}

impl Console {
    /// The console at the start of a session: the first job selected, the
    /// job list in focus, every kind switched on, the log empty.
    pub fn new(
        lang: String,
        alto_version: String,
        language_cursor: usize,
        alto_cursor: usize,
    ) -> (console: Self)
        ensures
            console.selected == 0,
            console.focus is Jobs,
            console.mode is Normal,
            console.detail_scroll == 0,
            console.edit_buffer@.len() == 0,
            console.custom_lang_input@.len() == 0,
            console.language_cursor == Some(language_cursor),
            console.alto_cursor == Some(alto_cursor),
            console.lang == lang,
            console.alto_version == alto_version,
            forall|kind: ArtifactKind| console.config.enabled(kind),
            console.log.lines@.len() == 0,
            console.log.scroll == 0,
    {
        Console {
            selected: 0,
            focus: FocusedPane::Jobs,
            mode: UiMode::Normal,
            detail_scroll: 0,
            edit_buffer: String::new(),
            custom_lang_input: String::new(),
            language_cursor: Some(language_cursor),
            alto_cursor: Some(alto_cursor),
            lang,
            alto_version,
            config: ArtifactConfig::all(),
            log: SessionLog::new(),
        }
    }

    /// The console after the pane in focus was moved `lines` towards the
    /// start: the selection steps back, or the pane scrolls up.
    pub open spec fn moved_up(self, lines: usize, job_count: usize) -> Console {
        match self.focus {
            FocusedPane::Jobs => Console {
                selected: stepped_back(self.selected, job_count, lines as nat),
                ..self
            },
            FocusedPane::Detail => Console {
                detail_scroll: if self.detail_scroll >= lines {
                    (self.detail_scroll - lines) as usize
                } else {
                    0
                },
                ..self
            },
            FocusedPane::Log => Console {
                log: SessionLog {
                    scroll: if self.log.scroll >= lines {
                        (self.log.scroll - lines) as usize
                    } else {
                        0
                    },
                    ..self.log
                },
                ..self
            },
        }
    }

    /// The console after the pane in focus was moved `lines` towards the
    /// end.
    pub open spec fn moved_down(self, lines: usize, job_count: usize) -> Console {
        match self.focus {
            FocusedPane::Jobs => Console {
                selected: stepped_forward(self.selected, job_count, lines as nat),
                ..self
            },
            FocusedPane::Detail => Console {
                detail_scroll: if self.detail_scroll + lines <= usize::MAX {
                    (self.detail_scroll + lines) as usize
                } else {
                    usize::MAX
                },
                ..self
            },
            FocusedPane::Log => Console {
                log: SessionLog {
                    scroll: if self.log.scroll + lines <= usize::MAX {
                        (self.log.scroll + lines) as usize
                    } else {
                        usize::MAX
                    },
                    ..self.log
                },
                ..self
            },
        }
    }

    /// Moves the pane in focus `lines` towards the start.
    pub fn scroll_current_up(&mut self, lines: usize, job_count: usize)
        ensures
            *final(self) == old(self).moved_up(lines, job_count),
    {
        match self.focus {
            FocusedPane::Jobs => {
                self.selected = jobs_back(self.selected, job_count, lines);
            },
            FocusedPane::Detail => {
                self.detail_scroll = self.detail_scroll.saturating_sub(lines);
            },
            FocusedPane::Log => {
                self.log.scroll_up(lines);
            },
        }
    }

    /// Moves the pane in focus `lines` towards the end.
    pub fn scroll_current_down(&mut self, lines: usize, job_count: usize)
        ensures
            *final(self) == old(self).moved_down(lines, job_count),
    {
        match self.focus {
            FocusedPane::Jobs => {
                self.selected = jobs_forward(self.selected, job_count, lines);
            },
            FocusedPane::Detail => {
                self.detail_scroll = self.detail_scroll.saturating_add(lines);
            },
            FocusedPane::Log => {
                self.log.scroll_down(lines);
            },
        }
    }

    /// One step towards the start.
    pub fn up(&mut self, job_count: usize)
        ensures
            *final(self) == old(self).moved_up(1, job_count),
    {
        self.scroll_current_up(1, job_count);
    }

    /// One step towards the end.
    pub fn down(&mut self, job_count: usize)
        ensures
            *final(self) == old(self).moved_down(1, job_count),
    {
        self.scroll_current_down(1, job_count);
    }

    /// Ten steps towards the start.
    pub fn page_up(&mut self, job_count: usize)
        ensures
            *final(self) == old(self).moved_up(10, job_count),
    {
        self.scroll_current_up(10, job_count);
    }

    /// Ten steps towards the end.
    pub fn page_down(&mut self, job_count: usize)
        ensures
            *final(self) == old(self).moved_down(10, job_count),
    {
        self.scroll_current_down(10, job_count);
    }

    /// Gives the focus to the next pane.
    pub fn focus_next(&mut self)
        ensures
            *final(self) == (Console { focus: next_focus_of(old(self).focus), ..*old(self) }),
    {
        self.focus = next_focus(self.focus);
    }

    /// Gives the focus to the pane before.
    pub fn focus_prev(&mut self)
        ensures
            next_focus_of(final(self).focus) == old(self).focus,
            *final(self) == (Console { focus: final(self).focus, ..*old(self) }),
    {
        self.focus = prev_focus(self.focus);
    }

    /// Switches `kind` the other way and gives the message on it. The job
    /// list is to be reconciled afterwards, since what counts as complete
    /// has changed.
    pub fn toggle(&mut self, kind: ArtifactKind) -> (message: String)
        ensures
            final(self).config.enabled(kind) == !old(self).config.enabled(kind),
            forall|other: ArtifactKind|
                other != kind ==> final(self).config.enabled(other) == old(self).config.enabled(
                    other,
                ),
            *final(self) == (Console { config: final(self).config, ..*old(self) }),
            message@ == toggle_message(kind, final(self).config.enabled(kind), old(self).alto_version@),
    {
        self.config = self.config.toggled(kind);
        let on = self.config.is_enabled(kind);
        let mut message = String::from_str(
            match kind {
                ArtifactKind::MasterDerivative => "AC (Master) ",
                ArtifactKind::UserDerivative => "UC (User) ",
                ArtifactKind::PlainText => "TXT ",
                ArtifactKind::LayoutXml => "ALTO ",
            },
        );
        message.append(if on { "ON" } else { "OFF" });
        match kind {
            ArtifactKind::LayoutXml => {
                message.append(concat3(" (verze ", self.alto_version.as_str(), ")").as_str());
            },
            _ => {
            },
        }
        message
    }
}

/// Whether `said` is the message `text`.
pub open spec fn says(said: Option<String>, text: Seq<char>) -> bool {
    said is Some && said->0@ == text
}

/// A text after a key that edits it: a character is added at the end,
/// Backspace takes the last one off, other keys leave the text.
pub open spec fn text_after_key(text: Seq<char>, key: Key) -> Seq<char> {
    match key {
        Key::Char(c) => text.push(c),
        Key::Backspace => if text.len() > 0 {
            text.drop_last()
        } else {
            text
        },
        _ => text,
    }
}

/// Whether a key moves the cursor of a menu.
pub open spec fn moves_cursor(key: Key) -> bool {
    key is Up || key is Down || key is PageUp || key is PageDown
}

impl Console {
    /// Whether `after` is this console with the editing of a path closed and
    /// `request` the path that was entered, without the white space around
    /// it, for the root that was being edited.
    pub open spec fn edit_applied(self, after: Console, request: EditRequest) -> bool {
        self.edit_closed(after, trimmed(self.edit_buffer@), request)
    }

    /// Whether `after` is this console with all editing given up.
    pub open spec fn edit_cancelled(self, after: Console) -> bool {
        &&& after.edit_buffer@.len() == 0
        &&& after.custom_lang_input@.len() == 0
        &&& after == (Console {
            mode: UiMode::Normal,
            edit_buffer: after.edit_buffer,
            custom_lang_input: after.custom_lang_input,
            ..self
        })
    }

    /// Whether `after` is this console with the typing of a language
    /// combination opened, starting from the language in force.
    pub open spec fn custom_lang_opened(self, after: Console) -> bool {
        &&& after.custom_lang_input@ == self.lang@
        &&& after == (Console {
            mode: UiMode::CustomLangInput,
            custom_lang_input: after.custom_lang_input,
            ..self
        })
    }

    /// Opens the editing of the input root, starting from the current one.
    pub fn start_edit_input(&mut self, input_root: &str) -> (message: String)
        ensures
            final(self).edit_buffer@ == input_root@,
            *final(self) == (Console {
                mode: UiMode::EditInput,
                edit_buffer: final(self).edit_buffer,
                ..*old(self)
            }),
            message@ == "Editace input root adresáře – Enter=potvrdit, Esc=zrušit"@,
    {
        self.mode = UiMode::EditInput;
        self.edit_buffer = String::from_str(input_root);
        String::from_str("Editace input root adresáře – Enter=potvrdit, Esc=zrušit")
    }

    /// Opens the editing of the output root, starting from the current one.
    pub fn start_edit_output(&mut self, output_root: &str) -> (message: String)
        ensures
            final(self).edit_buffer@ == output_root@,
            *final(self) == (Console {
                mode: UiMode::EditOutput,
                edit_buffer: final(self).edit_buffer,
                ..*old(self)
            }),
            message@ == "Editace output root – Enter=potvrdit, Esc=zrušit"@,
    {
        self.mode = UiMode::EditOutput;
        self.edit_buffer = String::from_str(output_root);
        String::from_str("Editace output root – Enter=potvrdit, Esc=zrušit")
    }

    /// Opens the menu of languages.
    pub fn show_language_menu(&mut self) -> (message: String)
        ensures
            *final(self) == (Console { mode: UiMode::LanguageMenu, ..*old(self) }),
            message@
                == "Výběr jazyka – ↑/↓: pohyb, Enter: vybrat, F2: vlastní zadání, Esc: zrušit"@,
    {
        self.mode = UiMode::LanguageMenu;
        String::from_str(
            "Výběr jazyka – ↑/↓: pohyb, Enter: vybrat, F2: vlastní zadání, Esc: zrušit",
        )
    }

    /// Opens the menu of layout format versions.
    pub fn show_alto_version_menu(&mut self) -> (message: String)
        ensures
            *final(self) == (Console { mode: UiMode::AltoVersionMenu, ..*old(self) }),
            message@ == "Výběr ALTO verze – ↑/↓: pohyb, Enter: vybrat, Esc: zrušit"@,
    {
        self.mode = UiMode::AltoVersionMenu;
        String::from_str("Výběr ALTO verze – ↑/↓: pohyb, Enter: vybrat, Esc: zrušit")
    }

    /// Opens the typing of a language combination, starting from the
    /// language in force.
    pub fn start_custom_lang_input(&mut self) -> (message: String)
        ensures
            old(self).custom_lang_opened(*final(self)),
            message@
                == "Vlastní kombinace jazyků (např. eng+ces+deu) – Enter=potvrdit, Esc=zrušit"@,
    {
        self.mode = UiMode::CustomLangInput;
        self.custom_lang_input = self.lang.clone();
        String::from_str(
            "Vlastní kombinace jazyků (např. eng+ces+deu) – Enter=potvrdit, Esc=zrušit",
        )
    }

    /// Gives up what was being edited.
    pub fn cancel_edit(&mut self) -> (message: String)
        ensures
            old(self).edit_cancelled(*final(self)),
            message@ == "Editace zrušena."@,
    {
        self.mode = UiMode::Normal;
        self.edit_buffer = String::new();
        self.custom_lang_input = String::new();
        String::from_str("Editace zrušena.")
    }

    /// Closes the editing of a path and hands the path out, without the
    /// white space around it, for the root that was being edited.
    pub fn apply_edit(&mut self) -> (request: EditRequest)
        ensures
            old(self).edit_applied(*final(self), request),
    {
        let path = trim(self.edit_buffer.as_str());
        self.close_edit(path)
    }

    /// Whether `after` is this console with the editing of a path closed and
    /// `request` asking for `path` as the root that was being edited.
    pub open spec fn edit_closed(self, after: Console, path: Seq<char>, request: EditRequest) -> bool {
        &&& after.edit_buffer@.len() == 0
        &&& after == (Console { mode: UiMode::Normal, edit_buffer: after.edit_buffer, ..self })
        &&& match self.mode {
            UiMode::EditInput => request is Input && request->Input_0@ == path,
            UiMode::EditOutput => request is Output && request->Output_0@ == path,
            _ => request is Nothing,
        }
    }

    /// Closes the editing of a path with `path` as the path entered, and
    /// hands it out for the root that was being edited.
    pub fn close_edit(&mut self, path: String) -> (request: EditRequest)
        ensures
            old(self).edit_closed(*final(self), path@, request),
    {
        let request = match self.mode {
            UiMode::EditInput => EditRequest::Input(path),
            UiMode::EditOutput => EditRequest::Output(path),
            _ => EditRequest::Nothing,
        };
        self.mode = UiMode::Normal;
        self.edit_buffer = String::new();
        request
    }

    /// Takes a key while a path is being edited. Enter closes the editing and
    /// hands the path out; Esc gives it up, with a message; other keys edit
    /// the text.
    pub fn handle_edit_key(&mut self, key: Key) -> (result: (EditRequest, Option<String>))
        ensures
            key is Enter ==> old(self).edit_applied(*final(self), result.0) && result.1 is None,
            key is Esc ==> old(self).edit_cancelled(*final(self)) && result.0 is Nothing && says(
                result.1,
                "Editace zrušena."@,
            ),
            !(key is Enter || key is Esc) ==> {
                &&& result.0 is Nothing
                &&& result.1 is None
                &&& final(self).edit_buffer@ == text_after_key(old(self).edit_buffer@, key)
                &&& *final(self) == (Console { edit_buffer: final(self).edit_buffer, ..*old(self) })
            },
    {
        match key {
            Key::Esc => {
                let message = self.cancel_edit();
                (EditRequest::Nothing, Some(message))
            },
            Key::Enter => {
                let request = self.apply_edit();
                (request, None)
            },
            Key::Backspace => {
                pop_char(&mut self.edit_buffer);
                (EditRequest::Nothing, None)
            },
            Key::Char(c) => {
                push_char(&mut self.edit_buffer, c);
                (EditRequest::Nothing, None)
            },
            _ => (EditRequest::Nothing, None),
        }
    }

    /// Whether `after` is this console with the typed combination, where
    /// anything is left of it without the white space around it, made the
    /// language in force; an empty combination changes nothing.
    pub open spec fn custom_lang_entered(self, after: Console) -> bool {
        self.custom_lang_taken(after, trimmed(self.custom_lang_input@))
    }

    /// Whether `after` is this console with `typed`, where it is not empty,
    /// made the language in force; an empty text changes nothing.
    pub open spec fn custom_lang_taken(self, after: Console, typed: Seq<char>) -> bool {
        if typed.len() > 0 {
            &&& after.lang@ == typed
            &&& after.custom_lang_input@.len() == 0
            &&& after == (Console {
                mode: UiMode::Normal,
                lang: after.lang,
                custom_lang_input: after.custom_lang_input,
                ..self
            })
        } else {
            after == self
        }
    }

    /// Makes `typed` the language in force and closes the typing, unless
    /// `typed` is empty; says what was done.
    pub fn take_custom_lang(&mut self, typed: String) -> (message: Option<String>)
        ensures
            old(self).custom_lang_taken(*final(self), typed@),
            typed@.len() > 0 ==> says(message, "Jazyk nastaven na vlastní kombinaci: "@ + typed@),
            typed@.len() == 0 ==> message is None,
    {
        if typed.as_str().unicode_len() > 0 {
            let message = concat2("Jazyk nastaven na vlastní kombinaci: ", typed.as_str());
            self.lang = typed;
            self.mode = UiMode::Normal;
            self.custom_lang_input = String::new();
            Some(message)
        } else {
            None
        }
    }

    /// Takes a key while a language combination is being typed. Enter makes
    /// the typed text, without the white space around it, the language in
    /// force, unless nothing is left of it; Esc goes back to the menu; other
    /// keys edit the text.
    pub fn handle_custom_lang_key(&mut self, key: Key) -> (message: Option<String>)
        ensures
            key is Esc ==> final(self).custom_lang_input@.len() == 0 && *final(self) == (Console {
                mode: UiMode::LanguageMenu,
                custom_lang_input: final(self).custom_lang_input,
                ..*old(self)
            }) && says(message, "Vlastní zadání jazyka zrušeno."@),
            key is Enter ==> old(self).custom_lang_entered(*final(self)),
            key is Enter && trimmed(old(self).custom_lang_input@).len() > 0 ==> says(
                message,
                "Jazyk nastaven na vlastní kombinaci: "@ + trimmed(old(self).custom_lang_input@),
            ),
            key is Enter && trimmed(old(self).custom_lang_input@).len() == 0 ==> message is None,
            !(key is Enter || key is Esc) ==> message is None && final(self).custom_lang_input@
                == text_after_key(old(self).custom_lang_input@, key) && *final(self) == (Console {
                custom_lang_input: final(self).custom_lang_input,
                ..*old(self)
            }),
    {
        match key {
            Key::Esc => {
                self.mode = UiMode::LanguageMenu;
                self.custom_lang_input = String::new();
                Some(String::from_str("Vlastní zadání jazyka zrušeno."))
            },
            Key::Enter => {
                let typed = trim(self.custom_lang_input.as_str());
                self.take_custom_lang(typed)
            },
            Key::Backspace => {
                pop_char(&mut self.custom_lang_input);
                None
            },
            Key::Char(c) => {
                push_char(&mut self.custom_lang_input, c);
                None
            },
            _ => None,
        }
    }

    /// Whether the cursor of the language menu stands on one of `count`
    /// entries.
    pub open spec fn language_chosen(self, count: nat) -> bool {
        self.language_cursor is Some && self.language_cursor->0 < count
    }

    /// Whether the cursor of the version menu stands on one of `count`
    /// entries.
    pub open spec fn alto_chosen(self, count: nat) -> bool {
        self.alto_cursor is Some && self.alto_cursor->0 < count
    }

    /// Takes a key while the menu of languages is open. `codes` holds the
    /// language tags on offer. The arrows and page keys move the cursor;
    /// Enter makes the tag under the cursor the language in force; F2 opens
    /// the typing of a combination; Esc closes the menu.
    pub fn handle_language_menu_key(&mut self, key: Key, codes: &Vec<String>) -> (message: Option<
        String,
    >)
        ensures
            key is Esc ==> *final(self) == (Console { mode: UiMode::Normal, ..*old(self) })
                && says(message, "Výběr jazyka zrušen."@),
            moves_cursor(key) ==> *final(self) == (Console {
                language_cursor: menu_cursor_after(old(self).language_cursor, codes.len(), key),
                ..*old(self)
            }) && message is None,
            key == Key::F(2) ==> old(self).custom_lang_opened(*final(self)) && says(
                message,
                "Vlastní kombinace jazyků (např. eng+ces+deu) – Enter=potvrdit, Esc=zrušit"@,
            ),
            key is Enter && old(self).language_chosen(codes@.len()) ==> final(self).lang@
                == codes@[old(self).language_cursor->0 as int]@ && *final(self) == (Console {
                mode: UiMode::Normal,
                lang: final(self).lang,
                ..*old(self)
            }) && says(message, "Jazyk nastaven na: "@ + final(self).lang@),
            !(key is Esc || moves_cursor(key) || key == Key::F(2)) && !(key is Enter && old(self)
                .language_chosen(codes@.len())) ==> *final(self) == *old(self) && message
                is None,
    {
        match key {
            Key::Esc => {
                self.mode = UiMode::Normal;
                Some(String::from_str("Výběr jazyka zrušen."))
            },
            Key::Up | Key::Down | Key::PageUp | Key::PageDown => {
                self.language_cursor = move_menu_cursor(self.language_cursor, codes.len(), key);
                None
            },
            Key::F(n) => {
                if n == 2 {
                    let message = self.start_custom_lang_input();
                    Some(message)
                } else {
                    None
                }
            },
            Key::Enter => {
                match self.language_cursor {
                    Some(at) => {
                        if at < codes.len() {
                            self.lang = codes[at].clone();
                            self.mode = UiMode::Normal;
                            Some(concat2("Jazyk nastaven na: ", self.lang.as_str()))
                        } else {
                            None
                        }
                    },
                    None => None,
                }
            },
            _ => None,
        }
    }

    /// Takes a key while the menu of layout format versions is open. The
    /// arrows and page keys move the cursor; Enter makes the version under
    /// the cursor the version in force; Esc closes the menu.
    pub fn handle_alto_version_menu_key(&mut self, key: Key, versions: &Vec<String>) -> (message:
        Option<String>)
        ensures
            key is Esc ==> *final(self) == (Console { mode: UiMode::Normal, ..*old(self) })
                && says(message, "Výběr ALTO verze zrušen."@),
            moves_cursor(key) ==> *final(self) == (Console {
                alto_cursor: menu_cursor_after(old(self).alto_cursor, versions.len(), key),
                ..*old(self)
            }) && message is None,
            key is Enter && old(self).alto_chosen(versions@.len()) ==> final(self).alto_version@
                == versions@[old(self).alto_cursor->0 as int]@ && *final(self) == (Console {
                mode: UiMode::Normal,
                alto_version: final(self).alto_version,
                ..*old(self)
            }) && says(message, "ALTO verze nastavena na: "@ + final(self).alto_version@),
            !(key is Esc || moves_cursor(key) || (key is Enter && old(self).alto_chosen(
                versions@.len(),
            ))) ==> *final(self) == *old(self) && message is None,
    {
        match key {
            Key::Esc => {
                self.mode = UiMode::Normal;
                Some(String::from_str("Výběr ALTO verze zrušen."))
            },
            Key::Up | Key::Down | Key::PageUp | Key::PageDown => {
                self.alto_cursor = move_menu_cursor(self.alto_cursor, versions.len(), key);
                None
            },
            Key::Enter => {
                match self.alto_cursor {
                    Some(at) => {
                        if at < versions.len() {
                            self.alto_version = versions[at].clone();
                            self.mode = UiMode::Normal;
                            Some(concat2("ALTO verze nastavena na: ", self.alto_version.as_str()))
                        } else {
                            None
                        }
                    },
                    None => None,
                }
            },
            _ => None,
        }
    }

    /// Takes up a new job list: the first job is selected and the panes
    /// stand at their start.
    pub fn jobs_replaced(&mut self)
        ensures
            *final(self) == (Console {
                selected: 0,
                detail_scroll: 0,
                log: SessionLog { scroll: 0, ..old(self).log },
                ..*old(self)
            }),
    {
        self.selected = 0;
        self.detail_scroll = 0;
        self.log.scroll = 0;
    }
}

/// What came of taking up an entered input root.
#[derive(Clone, Debug, PartialEq, Eq)]
pub enum InputRootOutcome {
    /// The path is no directory.
    NotADirectory,
    /// The root was taken up and its batches were found.
    Applied,
    /// The root was taken up, but its batches could not be listed.
    ListingFailed(String),
}

/// The messages on an entered input root.
pub open spec fn input_root_lines(path: Seq<char>, outcome: InputRootOutcome) -> Seq<Seq<char>> {
    match outcome {
        InputRootOutcome::NotADirectory => seq![
            "Input root adresář `"@ + path + "` neexistuje nebo není adresář."@,
        ],
        InputRootOutcome::Applied => seq!["Input root nastaven na `"@ + path + "`"@],
        InputRootOutcome::ListingFailed(e) => seq![
            "Input root nastaven na `"@ + path + "`"@,
            "Chyba při načítání dávek: "@ + e@ + ". Joby zůstávají prázdné."@,
        ],
    }
}

/// Gives the messages on an entered input root.
pub fn input_root_messages(path: &str, outcome: &InputRootOutcome) -> (lines: Vec<String>)
    ensures
        lines_of(lines@) == input_root_lines(path@, *outcome),
{
    let mut lines: Vec<String> = Vec::new();
    match outcome {
        InputRootOutcome::NotADirectory => {
            lines.push(concat3("Input root adresář `", path, "` neexistuje nebo není adresář."));
        },
        InputRootOutcome::Applied => {
            lines.push(concat3("Input root nastaven na `", path, "`"));
        },
        InputRootOutcome::ListingFailed(e) => {
            lines.push(concat3("Input root nastaven na `", path, "`"));
            lines.push(concat3("Chyba při načítání dávek: ", e.as_str(), ". Joby zůstávají prázdné."));
        },
    }
    lines
}

/// The message on an entered output root: that it was taken up, or why it
/// could not be made.
pub fn output_root_message(path: &str, result: &Result<(), String>) -> (line: String)
    ensures
        line@ == (match *result {
            Ok(_) => "Output root nastaven na `"@ + path@ + "`"@,
            Err(e) => "Nelze vytvořit output root `"@ + path@ + "`: "@ + e@,
        }),
{
    match result {
        Ok(_) => concat3("Output root nastaven na `", path, "`"),
        Err(e) => {
            let mut line = concat3("Nelze vytvořit output root `", path, "`: ");
            line.append(e.as_str());
            line
        },
    }
}

} // verus!
