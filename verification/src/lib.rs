//! Core of a modal terminal text editor: a rope-backed text buffer with
//! line/char coordinate conversion, a cursor with a sticky column, a
//! scrolling viewport, a modal input state machine, and a command table.
use vstd::prelude::*;

pub mod commands;
pub mod editor;
pub mod text_buffer;
pub mod text_model;

use crate::commands::{default_lookup, spec_lookup, CommandList, CommandType};
use crate::editor::{editor_after_move, inserted_char, scroll_after, Editor, Viewport};

verus! {

/// The terminal size as last reported by the surrounding application.
pub struct AppContext {
    /// Number of terminal columns.
    pub size_x: u16,
    /// Number of terminal rows.
    pub size_y: u16,
}

impl AppContext {
    /// The remembered terminal size as `(columns, rows)`.
    pub fn get_size(&self) -> (s: (u16, u16))
        ensures
            s == (self.size_x, self.size_y),
    {
        (self.size_x, self.size_y)
    }

    /// Remembers a new terminal size `(columns, rows)`.
    pub fn set_size(&mut self, size: (u16, u16))
        ensures
            final(self).size_x == size.0,
            final(self).size_y == size.1,
    {
        self.size_x = size.0;
        self.size_y = size.1;
    }
}

/// Outcome of loading a buffer from the file system.  The load itself is
/// performed by the surrounding application; this type keeps the failure
/// cases distinguishable.
#[derive(Clone, Copy, Debug, PartialEq, Eq, Structural)]
pub enum IoError {
    NotFound,
    PermissionDenied,
    Other,
}

/// One key, as the state machine sees it.
#[derive(Clone, Copy, Debug, PartialEq, Eq, Structural)]
pub enum KeyCode {
    /// A printable character.
    Char(char),
    /// The escape key.
    Esc,
    /// The enter key.
    Enter,
    /// Any other key; every mode ignores it.
    Other,
}

/// One input event, fed to the state machine one at a time.
#[derive(Clone, Copy, Debug, PartialEq, Eq, Structural)]
pub enum InputEvent {
    /// A key press.
    Key(KeyCode),
    /// The terminal was resized to `(columns, rows)`.
    Resize(u16, u16),
    /// Any other terminal event; ignored.
    Other,
}

/// The current interpretation of input events.  Exactly one mode is
/// active at a time; `EnteringCommand` carries the command line typed so
/// far, and a transition is the only way that payload changes.
pub enum Mode {
    /// Keys move the cursor or switch mode.
    Normal,
    /// Keys extend (or submit, or discard) the command line typed so far.
    EnteringCommand(String),
    /// Printable keys go into the buffer at the cursor.
    Editing,
}

/// Relies on String::push: appends one char at the end.
#[verifier::external_body]
fn string_push(s: &mut String, c: char)
    ensures
        final(s)@ == old(s)@.push(c),
{
    s.push(c);
}

/// The digit characters of `n` in decimal, most significant first.
pub open spec fn dec_digits(n: nat) -> Seq<char>
    decreases n,
{
    if n < 10 {
        seq![digit_char(n)]
    } else {
        dec_digits(n / 10).push(digit_char(n % 10))
    }
}

/// The character for one decimal digit.
pub open spec fn digit_char(d: nat) -> char {
    if d == 0 {
        '0'
    } else if d == 1 {
        '1'
    } else if d == 2 {
        '2'
    } else if d == 3 {
        '3'
    } else if d == 4 {
        '4'
    } else if d == 5 {
        '5'
    } else if d == 6 {
        '6'
    } else if d == 7 {
        '7'
    } else if d == 8 {
        '8'
    } else {
        '9'
    }
}

/// The character for one decimal digit.
fn digit_char_exec(d: usize) -> (c: char)
    requires
        d < 10,
    ensures
        c == digit_char(d as nat),
{
    match d {
        0 => '0',
        1 => '1',
        2 => '2',
        3 => '3',
        4 => '4',
        5 => '5',
        6 => '6',
        7 => '7',
        8 => '8',
        _ => '9',
    }
}

/// Appends the decimal digits of `n` to `s`.
fn push_decimal(s: &mut String, n: usize)
    ensures
        final(s)@ == old(s)@ + dec_digits(n as nat),
    decreases n,
{
    if n >= 10 {
        push_decimal(s, n / 10);
    }
    string_push(s, digit_char_exec(n % 10));
    proof {
        assert(s@ =~= old(s)@ + dec_digits(n as nat));
    }
}

impl Mode {
    /// The status-bar name of the mode, with the command line typed so
    /// far when one is being entered.
    pub open spec fn label(&self) -> Seq<char> {
        match self {
            Mode::Normal => "NOR"@,
            Mode::EnteringCommand(cmd) => "NOR :"@ + cmd@,
            Mode::Editing => "INS"@,
        }
    }

    /// The status-bar label of the mode: its name, with the command line
    /// typed so far when one is being entered.
    pub fn into_string(&self) -> (s: String)
        ensures
            s@ == self.label(),
    {
        match self {
            Mode::Normal => String::from_str("NOR"),
            Mode::EnteringCommand(cmd) => {
                let mut s = String::from_str("NOR :");
                s.append(cmd.as_str());
                s
            },
            Mode::Editing => String::from_str("INS"),
        }
    }
}

/// The editing core: the command table, the editor, the current mode and
/// the last reported terminal size.  The surrounding application owns the
/// terminal; it feeds one event at a time into `update` and performs the
/// action `update` reports.
pub struct App {
    /// Set when the application should leave its loop; nothing in this
    /// scope sets it.
    pub close: bool,
    /// The command table, built once at startup.
    pub commands: CommandList,
    /// Buffers, cursor and viewport.
    pub editor: Editor,
    /// The current interpretation of input events.
    pub mode: Mode,
    /// The last reported terminal size.
    pub context: AppContext,
}

/// How one step of the state machine relates the state before (`pre`) and
/// after (`post`) dispatching `event`, and the action `r` it asks the
/// application to perform.  `r` is `Some` exactly when a command line was
/// submitted, so a submitted command resolves to its action exactly once;
/// every other event resolves to no action.
pub open spec fn update_post(pre: App, post: App, event: InputEvent, r: Option<
    CommandType,
>) -> bool {
    &&& post.close == pre.close
    &&& post.commands == pre.commands
    &&& match event {
        InputEvent::Key(key) => {
            &&& post.context == pre.context
            &&& match pre.mode {
                Mode::Normal => {
                    &&& r is None
                    &&& match key {
                        KeyCode::Char(c) => {
                            if c == ':' {
                                &&& (post.mode matches Mode::EnteringCommand(cmd) && cmd@
                                    == Seq::<char>::empty())
                                &&& post.editor == pre.editor
                            } else if c == 'i' {
                                &&& post.mode is Editing
                                &&& post.editor == pre.editor
                            } else if c == 'h' {
                                &&& post.mode is Normal
                                &&& post.editor == editor_after_move(pre.editor, -1, 0)
                            } else if c == 'l' {
                                &&& post.mode is Normal
                                &&& post.editor == editor_after_move(pre.editor, 1, 0)
                            } else if c == 'j' {
                                &&& post.mode is Normal
                                &&& post.editor == editor_after_move(pre.editor, 0, 1)
                            } else if c == 'k' {
                                &&& post.mode is Normal
                                &&& post.editor == editor_after_move(pre.editor, 0, -1)
                            } else {
                                &&& post.mode is Normal
                                &&& post.editor == pre.editor
                            }
                        },
                        _ => {
                            &&& post.mode is Normal
                            &&& post.editor == pre.editor
                        },
                    }
                },
                Mode::EnteringCommand(cmd) => match key {
                    KeyCode::Esc => {
                        &&& post.mode is Normal
                        &&& post.editor == pre.editor
                        &&& r is None
                    },
                    KeyCode::Char(c) => {
                        &&& (post.mode matches Mode::EnteringCommand(cmd2) && cmd2@ == cmd@.push(
                            c,
                        ))
                        &&& post.editor == pre.editor
                        &&& r is None
                    },
                    KeyCode::Enter => {
                        &&& post.mode is Normal
                        &&& post.editor == pre.editor
                        &&& r == Some(spec_lookup(pre.commands.bindings@, cmd@))
                    },
                    KeyCode::Other => {
                        &&& (post.mode matches Mode::EnteringCommand(cmd2) && cmd2@ == cmd@)
                        &&& post.editor == pre.editor
                        &&& r is None
                    },
                },
                Mode::Editing => {
                    &&& r is None
                    &&& match key {
                        KeyCode::Esc => {
                            &&& post.mode is Normal
                            &&& post.editor == pre.editor
                        },
                        KeyCode::Char(c) => {
                            &&& post.mode is Editing
                            &&& inserted_char(pre.editor, post.editor, c)
                        },
                        _ => {
                            &&& post.mode is Editing
                            &&& post.editor == pre.editor
                        },
                    }
                },
            }
        },
        InputEvent::Resize(x, y) => {
            let rows = if y > 0 {
                (y - 1) as usize
            } else {
                0
            };
            &&& r is None
            &&& post.mode == pre.mode
            &&& post.context.size_x == x
            &&& post.context.size_y == y
            &&& post.editor.cursor == pre.editor.cursor
            &&& post.editor.buffers == pre.editor.buffers
            &&& post.editor.current_buffer == pre.editor.current_buffer
            &&& post.editor.dirty
            &&& post.editor.viewport.rows == rows
            &&& post.editor.viewport.cols == x
            &&& post.editor.viewport.scroll_offset == scroll_after(
                (Viewport {
                    rows,
                    cols: x as usize,
                    scroll_offset: pre.editor.viewport.scroll_offset,
                }),
                pre.editor.cursor_line(),
            )
        },
        InputEvent::Other => {
            &&& r is None
            &&& post.mode == pre.mode
            &&& post.editor == pre.editor
            &&& post.context == pre.context
        },
    }
}

impl App {
    /// Well-formedness of the whole application state.
    pub open spec fn wf(self) -> bool {
        self.editor.wf()
    }

    /// A fresh application over `editor`, in Normal mode, with the
    /// default command bindings, remembering the terminal size
    /// `(size_x, size_y)`.
    pub fn new(size_x: u16, size_y: u16, editor: Editor) -> (a: App)
        requires
            editor.wf(),
        ensures
            a.wf(),
            a.mode is Normal,
            a.editor == editor,
            !a.close,
            a.context.size_x == size_x,
            a.context.size_y == size_y,
            forall|name: Seq<char>|
                spec_lookup(a.commands.bindings@, name) == default_lookup(name),
    {
        App {
            close: false,
            commands: CommandList::new_with_default_bindings(),
            editor,
            mode: Mode::Normal,
            context: AppContext { size_x, size_y },
        }
    }

    /// Dispatches one input event: by the current mode, a key either
    /// moves the cursor, edits the buffer, or edits the command line; a
    /// resize reaches the viewport in every mode, one terminal row being
    /// kept for the status bar.  Returns the action the application must
    /// now perform: `Some` exactly when a command line was submitted.
    pub fn update(&mut self, event: InputEvent) -> (r: Option<CommandType>)
        requires
            old(self).wf(),
            // only inserting grows the buffer; every other event needs no room
            (old(self).mode is Editing && event matches InputEvent::Key(KeyCode::Char(_)))
                ==> old(self).editor.buf().len() < usize::MAX,
        ensures
            final(self).wf(),
            update_post(*old(self), *final(self), event, r),
    {
        let mut r: Option<CommandType> = None;
        match event {
            InputEvent::Key(key) => match &mut self.mode {
                Mode::Normal => {
                    if let KeyCode::Char(c) = key {
                        if c == ':' {
                            self.mode = Mode::EnteringCommand(String::new());
                        } else if c == 'i' {
                            self.mode = Mode::Editing;
                        } else if c == 'h' {
                            self.editor.move_cursor(-1, 0);
                        } else if c == 'l' {
                            self.editor.move_cursor(1, 0);
                        } else if c == 'j' {
                            self.editor.move_cursor(0, 1);
                        } else if c == 'k' {
                            self.editor.move_cursor(0, -1);
                        }
                    }
                },
                Mode::EnteringCommand(cmd) => match key {
                    KeyCode::Esc => {
                        self.mode = Mode::Normal;
                    },
                    KeyCode::Char(c) => {
                        string_push(cmd, c);
                    },
                    KeyCode::Enter => {
                        r = Some(self.commands.execute(cmd.clone(), &self.editor));
                        self.mode = Mode::Normal;
                    },
                    KeyCode::Other => {},
                },
                Mode::Editing => match key {
                    KeyCode::Esc => {
                        self.mode = Mode::Normal;
                    },
                    KeyCode::Char(c) => {
                        self.editor.insert_char(c);
                    },
                    _ => {},
                },
            },
            InputEvent::Resize(x, y) => {
                self.context.set_size((x, y));
                let rows: usize = if y > 0 {
                    (y - 1) as usize
                } else {
                    0
                };
                self.editor.set_size(rows, x as usize);
            },
            InputEvent::Other => {},
        }
        r
    }

    /// The status bar text, polled once per loop iteration by the
    /// rendering collaborator: the mode's name and the cursor's numeric
    /// diagnostics (absolute offset, screen column and row, buffer line).
    pub fn status_text(&self) -> (s: String)
        requires
            self.wf(),
        ensures
            s@ == " "@ + self.mode.label() + " index: "@ + dec_digits(
                self.editor.cursor.char_index as nat,
            ) + ", x: "@ + dec_digits(
                (self.editor.cursor.char_index - crate::text_model::line_start(
                    self.editor.buf(),
                    self.editor.cursor_line(),
                )) as nat,
            ) + ", y: "@ + dec_digits(
                self.editor.viewport.spec_screen_row(self.editor.cursor_line()) as nat,
            ) + ", line: "@ + dec_digits(self.editor.cursor_line() as nat),
    {
        let mut s = String::from_str(" ");
        let label = self.mode.into_string();
        s.append(label.as_str());
        s.append(" index: ");
        push_decimal(&mut s, self.editor.cursor_idx());
        s.append(", x: ");
        let pos = self.editor.get_cursor_pos();
        push_decimal(&mut s, pos.0);
        s.append(", y: ");
        push_decimal(&mut s, pos.1);
        s.append(", line: ");
        push_decimal(&mut s, self.editor.get_cursor_line_idx());
        s
    }
}

/// Submitting a command line under the default bindings resolves the
/// empty command to the save action, exactly once, and any other command
/// to no action; either way the editor is untouched and the mode returns
/// to Normal.
pub proof fn lemma_submit_command(pre: App, post: App, cmd: Seq<char>, r: Option<CommandType>)
    requires
        pre.mode matches Mode::EnteringCommand(c) && c@ == cmd,
        forall|name: Seq<char>| spec_lookup(pre.commands.bindings@, name) == default_lookup(name),
        update_post(pre, post, InputEvent::Key(KeyCode::Enter), r),
    ensures
        post.mode is Normal,
        post.editor == pre.editor,
        r == Some(
            if cmd == Seq::<char>::empty() {
                CommandType::SaveFile
            } else {
                CommandType::Unrecognized
            },
        ),
{
    assert(spec_lookup(pre.commands.bindings@, cmd) == default_lookup(cmd));
}

/// A resize event, in any mode, changes neither the cursor's offset nor
/// the mode (in particular the command line typed so far survives), and
/// asks for no action.
pub proof fn lemma_resize_keeps_mode_and_cursor(
    pre: App,
    post: App,
    x: u16,
    y: u16,
    r: Option<CommandType>,
)
    requires
        update_post(pre, post, InputEvent::Resize(x, y), r),
    ensures
        post.mode == pre.mode,
        post.editor.cursor == pre.editor.cursor,
        post.editor.buffers == pre.editor.buffers,
        r is None,
{
}

} // verus!
