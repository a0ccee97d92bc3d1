//! Command console: the editable input line, its cursor, the command
//! history, and the key-by-key state machine that feeds the session's
//! pending-command slot.
//!
//! The input is held as characters so every edit is index-exact; the
//! surrounding process draws it and supplies the key events as plain
//! variants.

use vstd::prelude::*;
use crate::session::{ApplicationState, ApplicationMode};

verus! {

/// Longest command history kept before the oldest entry is dropped.
pub const HISTORY_BUFFER_SIZE: usize = 20;

/// The prefix every command line starts with.
pub const COMMAND_PREFIX: char = ':';

/// One key event, as the console understands it.
#[derive(Clone, Copy, PartialEq, Eq, Structural, Debug)]
pub enum ConsoleKey {
    /// The command-prefix key: starts a fresh line and input mode.
    Prefix,
    /// Any other printable character.
    Char(char),
    Backspace,
    Left,
    Right,
    Up,
    Down,
    Enter,
    Esc,
}

/// Relies on `String`'s `FromIterator<char>` implementation: collecting
/// characters yields the string of exactly those characters in order.
#[verifier::external_body]
pub fn string_from_chars(v: &Vec<char>) -> (r: String)
    ensures
        r@ == v@,
{
    v.iter().copied().collect()
}

/// The editable command line with its cursor and history.
pub struct CommandConsoleState {
    pub input: Vec<char>,
    pub is_input_error: bool,
    pub cursor_position: usize,
    pub command_history: Vec<Vec<char>>,
    pub history_cursor: usize,
}

impl CommandConsoleState {
    /// Invariant: the cursor stays inside the line (one past the end at
    /// most) and the history cursor inside the history (one past at most).
    pub open spec fn wf(self) -> bool {
        &&& self.cursor_position <= self.input@.len()
        &&& self.history_cursor <= self.command_history@.len()
        &&& self.command_history@.len() <= HISTORY_BUFFER_SIZE
    }

    /// A fresh console: the bare prefix with the cursor after it.
    pub fn new() -> (r: CommandConsoleState)
        ensures
            r.wf(),
            r.input@ =~= seq![COMMAND_PREFIX],
            !r.is_input_error,
            r.cursor_position == 1,
            r.command_history@ =~= Seq::<Vec<char>>::empty(),
            r.history_cursor == 0,
    {
        let mut input: Vec<char> = Vec::new();
        input.push(COMMAND_PREFIX);
        CommandConsoleState {
            input,
            is_input_error: false,
            cursor_position: 1,
            command_history: Vec::new(),
            history_cursor: 0,
        }
    }

    pub fn input(&self) -> (r: &Vec<char>)
        ensures
            r@ == self.input@,
    {
        &self.input
    }

    /// Replace the line; the cursor is left where it was, clipped to the
    /// new end.
    pub fn set_input(&mut self, input: Vec<char>)
        requires
            old(self).wf(),
        ensures
            final(self).wf(),
            final(self).input@ == input@,
            final(self).cursor_position == if old(self).cursor_position <= input@.len() {
                old(self).cursor_position as int
            } else {
                input@.len() as int
            },
            final(self).is_input_error == old(self).is_input_error,
            final(self).command_history@ == old(self).command_history@,
            final(self).history_cursor == old(self).history_cursor,
    {
        let n = input.len();
        self.input = input;
        if self.cursor_position > n {
            self.cursor_position = n;
        }
    }

    /// Insert a character at the cursor; the cursor moves past it.
    pub fn push_char(&mut self, c: char)
        requires
            old(self).wf(),
        ensures
            final(self).wf(),
            final(self).input@ =~= old(self).input@.insert(old(self).cursor_position as int, c),
            final(self).cursor_position == old(self).cursor_position + 1,
            final(self).is_input_error == old(self).is_input_error,
            final(self).command_history@ == old(self).command_history@,
            final(self).history_cursor == old(self).history_cursor,
    {
        self.input.insert(self.cursor_position, c);
        let nl = self.input.len();
        assert(self.cursor_position < nl);
        self.cursor_position = self.cursor_position + 1;
    }

    /// Delete the character before the cursor, never the prefix.
    pub fn remove_char(&mut self)
        requires
            old(self).wf(),
        ensures
            final(self).wf(),
            old(self).cursor_position > 1 ==> final(self).input@ =~= old(self).input@.remove(
                old(self).cursor_position - 1,
            ) && final(self).cursor_position == old(self).cursor_position - 1,
            old(self).cursor_position <= 1 ==> final(self).input@ == old(self).input@
                && final(self).cursor_position == old(self).cursor_position,
            final(self).is_input_error == old(self).is_input_error,
            final(self).command_history@ == old(self).command_history@,
            final(self).history_cursor == old(self).history_cursor,
    {
        if self.cursor_position > 1 {
            self.input.remove(self.cursor_position - 1);
            self.cursor_position = self.cursor_position - 1;
        }
    }

    /// Reset the line to the bare prefix.
    pub fn flush_input(&mut self)
        requires
            old(self).wf(),
        ensures
            final(self).wf(),
            final(self).input@ =~= seq![COMMAND_PREFIX],
            final(self).cursor_position == 1,
            final(self).is_input_error == old(self).is_input_error,
            final(self).command_history@ == old(self).command_history@,
            final(self).history_cursor == old(self).history_cursor,
    {
        self.input = Vec::new();
        self.input.push(COMMAND_PREFIX);
        self.cursor_position = 1;
    }

    /// Move the cursor one step, staying past the prefix and inside the
    /// line.
    pub fn cursor_move(&mut self, left: bool)
        requires
            old(self).wf(),
        ensures
            final(self).wf(),
            final(self).cursor_position == if left {
                if old(self).cursor_position > 1 {
                    old(self).cursor_position - 1
                } else {
                    old(self).cursor_position as int
                }
            } else {
                if old(self).cursor_position + 1 < old(self).input@.len() {
                    old(self).cursor_position + 1
                } else {
                    old(self).cursor_position as int
                }
            },
            final(self).input@ == old(self).input@,
            final(self).is_input_error == old(self).is_input_error,
            final(self).command_history@ == old(self).command_history@,
            final(self).history_cursor == old(self).history_cursor,
    {
        if left {
            if self.cursor_position > 1 {
                self.cursor_position = self.cursor_position - 1;
            }
        } else {
            let n = self.input.len();
            if self.cursor_position < n && n - self.cursor_position > 1 {
                self.cursor_position = self.cursor_position + 1;
            }
        }
    }

    /// Show an error text in place of the input.
    pub fn set_error(&mut self, error: Vec<char>)
        requires
            old(self).wf(),
        ensures
            final(self).wf(),
            final(self).is_input_error,
            final(self).input@ == error@,
            final(self).command_history@ == old(self).command_history@,
            final(self).history_cursor == old(self).history_cursor,
    {
        self.is_input_error = true;
        self.set_input(error);
    }

    /// Leave error display; the line itself is untouched.
    pub fn clear_error(&mut self)
        requires
            old(self).wf(),
        ensures
            final(self).wf(),
            !final(self).is_input_error,
            final(self).input@ == old(self).input@,
            final(self).cursor_position == old(self).cursor_position,
            final(self).command_history@ == old(self).command_history@,
            final(self).history_cursor == old(self).history_cursor,
    {
        self.is_input_error = false;
    }

    /// Recall the previous (`forward`) or next history entry into the
    /// line, wrapping around; an empty slot clears the line.
    pub fn move_history_cursor(&mut self, forward: bool)
        requires
            old(self).wf(),
        ensures
            final(self).wf(),
            final(self).is_input_error == old(self).is_input_error,
            final(self).command_history@ == old(self).command_history@,
            final(self).history_cursor == spec_history_step(old(self).history_cursor as int,
                old(self).command_history@.len() as int, forward),
            final(self).input@ == if final(self).history_cursor
                < old(self).command_history@.len() {
                old(self).command_history@[final(self).history_cursor as int]@
            } else {
                Seq::<char>::empty()
            },
            final(self).cursor_position == final(self).input@.len(),
    {
        let hlen = self.command_history.len();
        if !forward {
            if self.history_cursor + 1 < hlen {
                self.history_cursor = self.history_cursor + 1;
            } else {
                self.history_cursor = 0;
            }
        } else {
            if self.history_cursor == 0 {
                if hlen == 0 {
                    self.history_cursor = 0;
                } else {
                    self.history_cursor = hlen - 1;
                }
            } else {
                self.history_cursor = self.history_cursor - 1;
            }
        }
        let entry: Vec<char> = if self.history_cursor < hlen {
            let mut copy: Vec<char> = Vec::new();
            let e = &self.command_history[self.history_cursor];
            let n = e.len();
            let mut i: usize = 0;
            while i < n
                invariant
                    0 <= i <= n,
                    n == e@.len(),
                    copy@ =~= e@.take(i as int),
                decreases n - i,
            {
                copy.push(e[i]);
                i = i + 1;
            }
            proof {
                assert(e@.take(n as int) =~= e@);
            }
            copy
        } else {
            Vec::new()
        };
        self.input = entry;
        self.cursor_position = self.input.len();
    }

    /// Hand the line out for dispatch: the line goes to the history (the
    /// oldest entry is dropped past the buffer size) and the console is
    /// reset to the bare prefix.
    pub fn input_and_flush(&mut self) -> (r: Vec<char>)
        requires
            old(self).wf(),
        ensures
            final(self).wf(),
            r@ == old(self).input@,
            final(self).input@ =~= seq![COMMAND_PREFIX],
            final(self).cursor_position == 1,
            final(self).is_input_error == old(self).is_input_error,
            history_views(final(self).command_history@) =~= spec_history_after(
                history_views(old(self).command_history@),
                old(self).input@,
            ),
            final(self).history_cursor == final(self).command_history@.len(),
    {
        let mut out: Vec<char> = Vec::new();
        let mut hist: Vec<char> = Vec::new();
        let n = self.input.len();
        let mut i: usize = 0;
        while i < n
            invariant
                0 <= i <= n,
                n == self.input@.len(),
                out@ =~= self.input@.take(i as int),
                hist@ =~= self.input@.take(i as int),
                self == old(self),
            decreases n - i,
        {
            out.push(self.input[i]);
            hist.push(self.input[i]);
            i = i + 1;
        }
        proof {
            assert(self.input@.take(n as int) =~= self.input@);
        }
        let input = out;
        if n > 0 {
            self.command_history.push(hist);
            proof {
                assert(history_views(self.command_history@) =~= history_views(
                    old(self).command_history@,
                ).push(old(self).input@));
            }
        }
        self.input = Vec::new();
        if self.command_history.len() > HISTORY_BUFFER_SIZE {
            let ghost before = self.command_history@;
            self.command_history.remove(0);
            proof {
                assert(history_views(self.command_history@) =~= history_views(before).remove(0));
            }
        }
        self.history_cursor = self.command_history.len();
        self.input.push(COMMAND_PREFIX);
        self.cursor_position = 1;
        proof {
            assert(final(self).input@ =~= seq![COMMAND_PREFIX]);
        }
        input
    }
}

/// Where the history cursor lands after one recall step.
pub open spec fn spec_history_step(cur: int, hlen: int, forward: bool) -> int {
    if !forward {
        if cur + 1 < hlen {
            cur + 1
        } else {
            0
        }
    } else {
        if cur == 0 {
            if hlen == 0 {
                0
            } else {
                hlen - 1
            }
        } else {
            cur - 1
        }
    }
}

/// The lines a history holds, as character sequences.
pub open spec fn history_views(h: Seq<Vec<char>>) -> Seq<Seq<char>> {
    h.map(|i: int, v: Vec<char>| v@)
}

/// The history after one line is cached: a non-empty line is appended,
/// then the oldest entry beyond the buffer size is dropped.
pub open spec fn spec_history_after(h: Seq<Seq<char>>, line: Seq<char>) -> Seq<Seq<char>> {
    let pushed = if line.len() > 0 {
        h.push(line)
    } else {
        h
    };
    if pushed.len() > HISTORY_BUFFER_SIZE {
        pushed.remove(0)
    } else {
        pushed
    }
}

/// Drive the console with one key event, updating the shared application
/// state exactly as one keystroke may: entering input mode, storing the
/// finished line as the pending command, or leaving to static mode.
pub fn console_handle_key(
    console: &mut CommandConsoleState,
    app: &mut ApplicationState,
    key: ConsoleKey,
)
    requires
        old(console).wf(),
        old(app).wf(),
    ensures
        final(console).wf(),
        final(app).wf(),
        key == ConsoleKey::Enter && old(app).spec_mode() != ApplicationMode::Error
            ==> (final(app).spec_command() matches Some(c) && c@ == old(console).input@)
            && final(console).input@ =~= seq![COMMAND_PREFIX],
        key == ConsoleKey::Prefix ==> final(app).spec_mode() == ApplicationMode::Input
            && final(console).input@ =~= seq![COMMAND_PREFIX],
        key == ConsoleKey::Esc ==> final(app).spec_mode() == ApplicationMode::Static,
        (key matches ConsoleKey::Char(_) || key == ConsoleKey::Backspace || key == ConsoleKey::Left
            || key == ConsoleKey::Right) ==> *final(app) == *old(app),
{
    let is_error = app.mode() == ApplicationMode::Error;
    match key {
        ConsoleKey::Prefix => {
            console.flush_input();
            app.to_input_mode();
        },
        ConsoleKey::Char(c) => {
            if !is_error {
                console.push_char(c);
            }
        },
        ConsoleKey::Backspace => {
            if !is_error {
                console.remove_char();
            }
        },
        ConsoleKey::Left => {
            if !is_error {
                console.cursor_move(true);
            }
        },
        ConsoleKey::Right => {
            if !is_error {
                console.cursor_move(false);
            }
        },
        ConsoleKey::Up => {
            console.clear_error();
            console.move_history_cursor(true);
        },
        ConsoleKey::Down => {
            console.clear_error();
            console.move_history_cursor(false);
        },
        ConsoleKey::Enter => {
            if !is_error {
                let line = console.input_and_flush();
                let s = string_from_chars(&line);
                app.set_command(Some(s));
            } else {
                console.clear_error();
                console.flush_input();
                app.to_input_mode();
            }
        },
        ConsoleKey::Esc => {
            app.to_static_mode();
        },
    }
}

} // verus!
