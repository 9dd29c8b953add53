//! State of the terminal interface: the message list with its selection,
//! the input line, and the keystroke handling that edits them.
//!
//! The renderer itself draws from a plain view model computed here; it owns
//! no decision. The network task never touches this state: it only receives
//! the lines that key handling emits.

use vstd::prelude::*;
use vstd::string::StrSliceExecFns;
use vstd::string::StringExecFns;
use crate::codec::{spec_head_before, spec_tail_after, split_at_first};
use crate::text::{clock_text, pop_char, push_char, spec_clock_text};

verus! {

/// Whether keystrokes navigate the message list or edit the input line.
#[derive(Clone, Copy, PartialEq, Eq, Structural, Debug)]
pub enum InputMode {
    Normal,
    Editing,
}

/// A list of display items and the index of the selected one, if any.
#[verifier::ext_equal]
pub struct StatefulList<T> {
    pub selected: Option<usize>,
    pub items: Vec<T>,
}

impl<T> StatefulList<T> {
    /// A selection, when present, points at an item.
    pub open spec fn wf(self) -> bool {
        self.selected matches Some(i) ==> i < self.items@.len()
    }

    /// Selection after moving down: the first item when nothing was
    /// selected, otherwise one further, saturating at the last item. An
    /// empty list has nothing to select.
    pub open spec fn spec_next(self) -> Option<usize> {
        if self.items@.len() == 0 {
            None
        } else {
            match self.selected {
                None => Some(0usize),
                Some(i) => if i + 1 >= self.items@.len() {
                    Some(i)
                } else {
                    Some((i + 1) as usize)
                },
            }
        }
    }

    /// Selection after moving up: the first item when nothing was selected,
    /// otherwise one back, saturating at the first item.
    pub open spec fn spec_previous(self) -> Option<usize> {
        if self.items@.len() == 0 {
            None
        } else {
            match self.selected {
                None => Some(0usize),
                Some(i) => if i == 0 {
                    Some(0usize)
                } else {
                    Some((i - 1) as usize)
                },
            }
        }
    }

    /// A list with the given items and no selection.
    pub fn with_items(items: Vec<T>) -> (l: StatefulList<T>)
        ensures
            l.wf(),
            l.items@ == items@,
            l.selected is None,
    {
        StatefulList { selected: None, items }
    }

    /// Move the selection down, as `spec_next` says.
    pub fn next(&mut self)
        requires
            old(self).wf(),
        ensures
            final(self).wf(),
            final(self).items == old(self).items,
            final(self).selected == old(self).spec_next(),
    {
        if self.items.len() == 0 {
            self.selected = None;
            return ;
        }
        let i = match self.selected {
            Some(i) => if i + 1 >= self.items.len() {
                i
            } else {
                i + 1
            },
            None => 0,
        };
        self.selected = Some(i);
    }

    /// Move the selection up, as `spec_previous` says.
    pub fn previous(&mut self)
        requires
            old(self).wf(),
        ensures
            final(self).wf(),
            final(self).items == old(self).items,
            final(self).selected == old(self).spec_previous(),
    {
        if self.items.len() == 0 {
            self.selected = None;
            return ;
        }
        let i = match self.selected {
            Some(i) => if i == 0 {
                0
            } else {
                i - 1
            },
            None => 0,
        };
        self.selected = Some(i);
    }

    /// Select the first item; an empty list keeps no selection.
    pub fn home(&mut self)
        requires
            old(self).wf(),
        ensures
            final(self).wf(),
            final(self).items == old(self).items,
            old(self).items@.len() == 0 ==> final(self).selected is None,
            old(self).items@.len() > 0 ==> final(self).selected == Some(0usize),
    {
        if self.items.len() == 0 {
            self.selected = None;
        } else {
            self.selected = Some(0);
        }
    }

    /// Select the last item; an empty list keeps no selection.
    pub fn end(&mut self)
        requires
            old(self).wf(),
        ensures
            final(self).wf(),
            final(self).items == old(self).items,
            old(self).items@.len() == 0 ==> final(self).selected is None,
            old(self).items@.len() > 0 ==> final(self).selected == Some(
                (old(self).items@.len() - 1) as usize,
            ),
    {
        if self.items.len() == 0 {
            self.selected = None;
        } else {
            self.selected = Some(self.items.len() - 1);
        }
    }

    /// Clear the selection.
    pub fn unselect(&mut self)
        requires
            old(self).wf(),
        ensures
            final(self).wf(),
            final(self).items == old(self).items,
            final(self).selected is None,
    {
        self.selected = None;
    }
}

/// The interface's whole state: the input line being edited, the current
/// input mode, the history of recorded messages, and the raw text received
/// from remote peers.
#[verifier::ext_equal]
pub struct App {
    pub input: String,
    pub input_mode: InputMode,
    pub messages: StatefulList<String>,
    pub remote_messages: String,
}

impl App {
    pub open spec fn wf(self) -> bool {
        self.messages.wf()
    }
}

impl Default for App {
    /// A fresh interface: empty input, navigation mode, no messages.
    fn default() -> (a: App)
        ensures
            a.wf(),
            a.input@ == Seq::<char>::empty(),
            a.input_mode == InputMode::Normal,
            a.messages.items@ == Seq::<String>::empty(),
            a.messages.selected is None,
            a.remote_messages@ == Seq::<char>::empty(),
    {
        App {
            input: String::new(),
            input_mode: InputMode::Normal,
            messages: StatefulList { selected: None, items: Vec::new() },
            remote_messages: String::new(),
        }
    }
}

/// A keystroke, abstracted from the terminal backend.
#[derive(Clone, Copy, PartialEq, Eq, Structural, Debug)]
pub enum Key {
    Char(char),
    Enter,
    Backspace,
    Esc,
    Left,
    Down,
    Up,
    Home,
    End,
    Other,
}

/// What the caller must do after one keystroke.
#[derive(Clone, PartialEq, Eq, Debug)]
pub enum KeyOutcome {
    /// Leave the whole process.
    Quit,
    /// Send this line, already encoded as `content,name`, to the network
    /// task.
    Send(String),
    /// Nothing beyond redrawing.
    Continue,
}

/// The line recorded locally when the user sends `input` at the given time:
/// the display name, the wall clock, a dash, then the content.
pub open spec fn spec_local_echo(
    name: Seq<char>,
    h: int,
    m: int,
    s: int,
    input: Seq<char>,
) -> Seq<char> {
    name + seq![' '] + spec_clock_text(h, m, s) + seq![' ', '-', ' '] + input
}

/// Apply one keystroke to the interface state at the given wall-clock time.
///
/// In navigation mode, `q` quits, `i` starts editing, and the arrow and
/// shortcut keys move the selection. In editing mode, characters extend the
/// input line, backspace shortens it, escape returns to navigation, and
/// enter emits the input as `content,name` for the network task, records a
/// local echo line, selects it, and clears the input.
pub fn handle_key(app: &mut App, key: Key, name: &str, h: u8, m: u8, s: u8) -> (r: KeyOutcome)
    requires
        old(app).wf(),
        h < 24,
        m < 60,
        s < 60,
    ensures
        final(app).wf(),
        final(app).remote_messages == old(app).remote_messages,
        old(app).input_mode == InputMode::Normal ==> {
            &&& (key == Key::Char('q') ==> r == KeyOutcome::Quit && (*final(app)) =~= *old(app))
            &&& (key == Key::Char('i') ==> r == KeyOutcome::Continue && (*final(app)) =~= (App {
                input_mode: InputMode::Editing,
                ..*old(app)
            }))
            &&& (key == Key::Left ==> r == KeyOutcome::Continue && (*final(app)) =~= (App {
                messages: StatefulList { selected: None, ..old(app).messages },
                ..*old(app)
            }))
            &&& (key == Key::Down || key == Key::Char('j') ==> r == KeyOutcome::Continue && (*final(app)) =~= (App {
                messages: StatefulList {
                    selected: old(app).messages.spec_next(),
                    ..old(app).messages
                },
                ..*old(app)
            }))
            &&& (key == Key::Up || key == Key::Char('k') ==> r == KeyOutcome::Continue && (*final(app)) =~= (App {
                messages: StatefulList {
                    selected: old(app).messages.spec_previous(),
                    ..old(app).messages
                },
                ..*old(app)
            }))
            &&& (key == Key::Home ==> r == KeyOutcome::Continue && final(app).input == old(app).input && final(app).input_mode == InputMode::Normal && final(app).messages.items@
                == old(app).messages.items@ && (old(app).messages.items@.len() > 0 ==> final(app).messages.selected == Some(0usize)) && (old(app).messages.items@.len() == 0 ==> final(app).messages.selected is None))
            &&& (key == Key::End ==> r == KeyOutcome::Continue && final(app).input == old(app).input && final(app).input_mode == InputMode::Normal && final(app).messages.items@
                == old(app).messages.items@ && (old(app).messages.items@.len() > 0 ==> final(app).messages.selected == Some((old(app).messages.items@.len() - 1) as usize)) && (old(app).messages.items@.len() == 0 ==> final(app).messages.selected is None))
            &&& (!(key == Key::Char('q') || key == Key::Char('i') || key == Key::Left || key
                == Key::Down || key == Key::Char('j') || key == Key::Up || key == Key::Char('k')
                || key == Key::Home || key == Key::End) ==> r == KeyOutcome::Continue && (*final(app)) =~= *old(app))
        },
        old(app).input_mode == InputMode::Editing ==> {
            &&& (key == Key::Enter ==> (r matches KeyOutcome::Send(line) && line@ == old(app).input@ + seq![','] + name@ && final(app).input@ == Seq::<char>::empty() && final(app).input_mode == InputMode::Editing && final(app).messages.items@.len() == old(app).messages.items@.len() + 1 && final(app).messages.items@.drop_last() == old(app).messages.items@ && final(app).messages.items@.last()@ == spec_local_echo(
                name@,
                h as int,
                m as int,
                s as int,
                old(app).input@,
            ) && final(app).messages.selected == Some(old(app).messages.items@.len() as usize)))
            &&& (key matches Key::Char(c) ==> r == KeyOutcome::Continue && (*final(app)) =~= (App {
                input: final(app).input,
                ..*old(app)
            }) && final(app).input@ == old(app).input@.push(c))
            &&& (key == Key::Backspace ==> r == KeyOutcome::Continue && final(app).input_mode
                == InputMode::Editing && final(app).messages.items@ == old(app).messages.items@
                && final(app).messages.selected == old(app).messages.selected && (old(app).input@.len() == 0 ==> final(app).input@ == old(app).input@) && (old(app).input@.len() > 0 ==> final(app).input@ == old(app).input@.drop_last()))
            &&& (key == Key::Esc ==> r == KeyOutcome::Continue && (*final(app)) =~= (App {
                input_mode: InputMode::Normal,
                ..*old(app)
            }))
            &&& (!(key == Key::Enter || key matches Key::Char(_) || key == Key::Backspace || key
                == Key::Esc) ==> r == KeyOutcome::Continue && (*final(app)) =~= *old(app))
        },
{
    match app.input_mode {
        InputMode::Normal => {
            match key {
                Key::Char(c) => {
                    if c == 'i' {
                        app.input_mode = InputMode::Editing;
                        KeyOutcome::Continue
                    } else if c == 'q' {
                        KeyOutcome::Quit
                    } else if c == 'j' {
                        app.messages.next();
                        KeyOutcome::Continue
                    } else if c == 'k' {
                        app.messages.previous();
                        KeyOutcome::Continue
                    } else {
                        KeyOutcome::Continue
                    }
                },
                Key::Left => {
                    app.messages.unselect();
                    KeyOutcome::Continue
                },
                Key::Down => {
                    app.messages.next();
                    KeyOutcome::Continue
                },
                Key::Up => {
                    app.messages.previous();
                    KeyOutcome::Continue
                },
                Key::Home => {
                    app.messages.home();
                    KeyOutcome::Continue
                },
                Key::End => {
                    app.messages.end();
                    KeyOutcome::Continue
                },
                _ => KeyOutcome::Continue,
            }
        },
        InputMode::Editing => {
            match key {
                Key::Enter => {
                    let mut line = app.input.clone();
                    push_char(&mut line, ',');
                    line.append(name);
                    let mut echo = name.to_owned();
                    push_char(&mut echo, ' ');
                    let clock = clock_text(h, m, s);
                    echo.append(clock.as_str());
                    push_char(&mut echo, ' ');
                    push_char(&mut echo, '-');
                    push_char(&mut echo, ' ');
                    echo.append(app.input.as_str());
                    proof {
                        assert(echo@ =~= spec_local_echo(
                            name@,
                            h as int,
                            m as int,
                            s as int,
                            old(app).input@,
                        ));
                    }
                    app.input = String::new();
                    let idx = app.messages.items.len();
                    app.messages.items.push(echo);
                    app.messages.selected = Some(idx);
                    proof {
                        assert(app.messages.items@.drop_last() =~= old(app).messages.items@);
                    }
                    KeyOutcome::Send(line)
                },
                Key::Char(c) => {
                    push_char(&mut app.input, c);
                    KeyOutcome::Continue
                },
                Key::Backspace => {
                    pop_char(&mut app.input);
                    KeyOutcome::Continue
                },
                Key::Esc => {
                    app.input_mode = InputMode::Normal;
                    KeyOutcome::Continue
                },
                _ => KeyOutcome::Continue,
            }
        },
    }
}

/// Byte at which a history line splits into its two styled halves.
pub const ROW_SPLIT: u8 = 45;

/// Everything the renderer needs, as plain values: which hint line to show,
/// each history line split at its first dash into the two styled halves,
/// the input line being edited, and the selected row.
pub struct UiModel {
    pub editing: bool,
    pub rows: Vec<(Vec<u8>, Vec<u8>)>,
    pub input_text: String,
    pub selected: Option<usize>,
}

/// Compute the view model of the interface state.
pub fn ui(app: &App) -> (r: UiModel)
    ensures
        r.editing == (app.input_mode == InputMode::Editing),
        r.selected == app.messages.selected,
        r.input_text@ == app.input@,
        r.rows@.len() == app.messages.items@.len(),
        forall|i: int|
            0 <= i < r.rows@.len() ==> (#[trigger] r.rows@[i]).0@ == spec_head_before(
                vstd::utf8::encode_utf8(app.messages.items@[i]@),
                ROW_SPLIT,
            ) && r.rows@[i].1@ == spec_tail_after(
                vstd::utf8::encode_utf8(app.messages.items@[i]@),
                ROW_SPLIT,
            ),
{
    let editing = match app.input_mode {
        InputMode::Editing => true,
        InputMode::Normal => false,
    };
    let mut rows: Vec<(Vec<u8>, Vec<u8>)> = Vec::new();
    let n = app.messages.items.len();
    let mut i: usize = 0;
    while i < n
        invariant
            n == app.messages.items@.len(),
            0 <= i <= n,
            rows@.len() == i,
            forall|j: int|
                0 <= j < i ==> (#[trigger] rows@[j]).0@ == spec_head_before(
                    vstd::utf8::encode_utf8(app.messages.items@[j]@),
                    ROW_SPLIT,
                ) && rows@[j].1@ == spec_tail_after(
                    vstd::utf8::encode_utf8(app.messages.items@[j]@),
                    ROW_SPLIT,
                ),
        decreases n - i,
    {
        let bytes = app.messages.items[i].as_str().as_bytes_vec();
        let (head, tail) = split_at_first(&bytes, ROW_SPLIT);
        rows.push((head, tail));
        i = i + 1;
    }
    let input_text = app.input.clone();
    UiModel { editing, rows, input_text, selected: app.messages.selected }
}

} // verus!
