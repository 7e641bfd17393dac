use vstd::prelude::*;
use std::collections::VecDeque;

verus! {

/// Which of the buttons of a pointing device are pressed.
#[derive(Debug, Copy, Clone, PartialEq, Eq, Structural)]
pub struct MouseButtonState {
    pub l: bool,
    pub c: bool,
    pub r: bool,
}

/// The characters that were typed and wait to be read, oldest first.
pub struct InputManager {
    input_queue: VecDeque<char>,
}

impl View for InputManager {
    type V = Seq<char>;

    closed spec fn view(&self) -> Seq<char> {
        self.input_queue@
    }
}

impl InputManager {
    /// A queue without characters.
    pub fn new() -> (r: InputManager)
        ensures
            r@ == Seq::<char>::empty(),
    {
        InputManager { input_queue: VecDeque::new() }
    }

    /// Adds `value` behind the characters that wait.
    pub fn push_input(&mut self, value: char)
        ensures
            final(self)@ == old(self)@.push(value),
    {
        self.input_queue.push_back(value)
    }

    /// Takes the character that has waited longest, if any waits.
    pub fn pop_input(&mut self) -> (r: Option<char>)
        ensures
            old(self)@.len() == 0 ==> r is None && final(self)@ == old(self)@,
            old(self)@.len() > 0 ==> r == Some(old(self)@[0]) && final(self)@ == old(self)@.subrange(
                1,
                old(self)@.len() as int,
            ),
    {
        self.input_queue.pop_front()
    }
}

/// What the console shows for a character that was typed.
#[derive(Debug, Copy, Clone, PartialEq, Eq, Structural)]
pub enum ConsoleEcho {
    /// Nothing.
    Nothing,
    /// The character.
    Char(char),
    /// The last character is wiped out: a backspace, a space, a backspace.
    Erase,
}

/// What the console does for a character that was typed.
#[derive(Debug, PartialEq, Eq)]
pub struct ConsoleStep {
    /// The line to run as a command, where the character ended a line.
    pub run: Option<Vec<char>>,
    /// What is shown.
    pub echo: ConsoleEcho,
}

/// Whether `c` ends a line.
pub open spec fn is_line_end(c: char) -> bool {
    c == '\r' || c == '\n'
}

/// Whether `c` is taken into the line: a letter, a digit, a space or a
/// dot.
pub open spec fn is_line_char(c: char) -> bool {
    ('a' <= c <= 'z') || ('A' <= c <= 'Z') || ('0' <= c <= '9') || c == ' ' || c == '.'
}

/// Whether `c` deletes the last character of the line: its lowest byte is
/// that of the delete character.
pub open spec fn is_delete(c: char) -> bool {
    c as u32 % 256 == 0x7f
}

/// The line after `c` was typed: a line end empties it, a character that
/// is taken is added, and a delete drops the last character, if there is
/// one.
pub open spec fn line_after(line: Seq<char>, c: char) -> Seq<char> {
    if is_line_end(c) {
        Seq::empty()
    } else if is_line_char(c) {
        line.push(c)
    } else if is_delete(c) && line.len() > 0 {
        line.drop_last()
    } else {
        line
    }
}

/// What the console shows after `c` was typed.
pub open spec fn echo_of(c: char) -> ConsoleEcho {
    if is_line_char(c) {
        ConsoleEcho::Char(c)
    } else if is_delete(c) {
        ConsoleEcho::Erase
    } else {
        ConsoleEcho::Nothing
    }
}

/// The line that is being typed at the console.
pub struct Console {
    line: Vec<char>,
}

impl View for Console {
    type V = Seq<char>;

    closed spec fn view(&self) -> Seq<char> {
        self.line@
    }
}

impl Console {
    /// A console with an empty line.
    pub fn new() -> (r: Console)
        ensures
            r@ == Seq::<char>::empty(),
    {
        Console { line: Vec::new() }
    }

    /// Takes the character `c` that was typed: a line end hands the line
    /// out to be run and starts a new one; other characters edit the line.
    pub fn input(&mut self, c: char) -> (r: ConsoleStep)
        ensures
            final(self)@ == line_after(old(self)@, c),
            r.echo == echo_of(c),
            is_line_end(c) ==> r.run is Some && r.run->0@ == old(self)@,
            !is_line_end(c) ==> r.run is None,
    {
        let mut run: Option<Vec<char>> = None;
        if c == '\r' || c == '\n' {
            let mut line: Vec<char> = Vec::new();
            std::mem::swap(&mut line, &mut self.line);
            run = Some(line);
        }
        let echo = if ('a' <= c && c <= 'z') || ('A' <= c && c <= 'Z') || ('0' <= c && c <= '9')
            || c == ' ' || c == '.' {
            self.line.push(c);
            ConsoleEcho::Char(c)
        } else if c as u32 % 256 == 0x7f {
            let _ = self.line.pop();
            ConsoleEcho::Erase
        } else {
            ConsoleEcho::Nothing
        };
        ConsoleStep { run, echo }
    }
}

/// The color in which the pointer is drawn: all bits set, except those of
/// red while the left button is pressed.
pub open spec fn spec_cursor_color(b: MouseButtonState) -> u32 {
    if b.l {
        0xff00ffff
    } else {
        0xffffffff
    }
}

/// `v` brought into the range from `lo` to `hi`.
pub open spec fn clamp(v: int, lo: int, hi: int) -> int {
    if v < lo {
        lo
    } else if v > hi {
        hi
    } else {
        v
    }
}

/// Where and in which color the pointer is drawn on a screen of `iw` by
/// `ih` pixels, for the position `(px, py)` in pixels: the position is
/// brought onto the screen.
pub fn cursor_pixel(px: i64, py: i64, iw: i64, ih: i64, b: MouseButtonState) -> (r: (
    i64,
    i64,
    u32,
))
    requires
        iw >= 1,
        ih >= 1,
    ensures
        r.0 == clamp(px as int, 0, iw - 1),
        r.1 == clamp(py as int, 0, ih - 1),
        r.2 == spec_cursor_color(b),
{
    let x = if px < 0 {
        0
    } else if px > iw - 1 {
        iw - 1
    } else {
        px
    };
    let y = if py < 0 {
        0
    } else if py > ih - 1 {
        ih - 1
    } else {
        py
    };
    let color: u32 = if b.l {
        0xff00ffff
    } else {
        0xffffffff
    };
    (x, y, color)
}

} // verus!
