//! A command dispatcher: a `State` record is updated in place by `Message`
//! commands, each command overwriting exactly the fields it targets.

use vstd::prelude::*;

verus! {

/// A position on the plane.
pub struct Point {
    pub x: u64,
    pub y: u64,
}

/// A command: each variant carries the new value for the fields it targets.
pub enum Message {
    Resize { width: u64, height: u64 },
    Move(Point),
    Echo(String),
    ChangeColor(u8, u8, u8),
    Quit,
}

/// The record updated by [`State::process`].
pub struct State {
    pub width: u64,
    pub height: u64,
    pub position: Point,
    pub message: String,
    pub color: (u8, u8, u8),
    pub quit: bool,
}

/// Mathematical model of a [`State`].
pub struct StateModel {
    pub width: int,
    pub height: int,
    pub position: (int, int),
    pub message: Seq<char>,
    pub color: (int, int, int),
    pub quit: bool,
}

/// Mathematical model of a [`Message`].
pub enum Command {
    Resize { width: int, height: int },
    Move { x: int, y: int },
    Echo { text: Seq<char> },
    ChangeColor { red: int, green: int, blue: int },
    Quit,
}

impl View for Point {
    type V = (int, int);

    open spec fn view(&self) -> (int, int) {
        (self.x as int, self.y as int)
    }
}

impl View for Message {
    type V = Command;

    open spec fn view(&self) -> Command {
        match *self {
            Message::Resize { width, height } => Command::Resize {
                width: width as int,
                height: height as int,
            },
            Message::Move(p) => Command::Move { x: p.x as int, y: p.y as int },
            Message::Echo(s) => Command::Echo { text: s@ },
            Message::ChangeColor(r, g, b) => Command::ChangeColor {
                red: r as int,
                green: g as int,
                blue: b as int,
            },
            Message::Quit => Command::Quit,
        }
    }
}

impl View for State {
    type V = StateModel;

    open spec fn view(&self) -> StateModel {
        StateModel {
            width: self.width as int,
            height: self.height as int,
            position: (self.position.x as int, self.position.y as int),
            message: self.message@,
            color: (self.color.0 as int, self.color.1 as int, self.color.2 as int),
            quit: self.quit,
        }
    }
}

/// What one command does to the model: it overwrites exactly the fields its
/// variant targets and leaves every other field unchanged.
pub open spec fn apply(s: StateModel, c: Command) -> StateModel {
    match c {
        Command::Resize { width, height } => (StateModel { width, height, ..s }),
        Command::Move { x, y } => (StateModel { position: (x, y), ..s }),
        Command::Echo { text } => (StateModel { message: text, ..s }),
        Command::ChangeColor { red, green, blue } => (StateModel {
            color: (red, green, blue),
            ..s
        }),
        Command::Quit => (StateModel { quit: true, ..s }),
    }
}

/// Folds [`apply`] over a sequence of commands, oldest command first.
pub open spec fn apply_all(s: StateModel, cs: Seq<Command>) -> StateModel
    decreases cs.len(),
{
    if cs.len() == 0 {
        s
    } else {
        apply(apply_all(s, cs.drop_last()), cs.last())
    }
}

impl State {
    pub fn resize(&mut self, width: u64, height: u64)
        ensures
            final(self)@ == apply(
                old(self)@,
                Command::Resize { width: width as int, height: height as int },
            ),
    {
        self.width = width;
        self.height = height;
    }

    pub fn move_position(&mut self, point: Point)
        ensures
            final(self)@ == apply(old(self)@, Command::Move { x: point.x as int, y: point.y as int }),
    {
        self.position = point;
    }

    pub fn echo(&mut self, s: String)
        ensures
            final(self)@ == apply(old(self)@, Command::Echo { text: s@ }),
    {
        self.message = s;
    }

    pub fn change_color(&mut self, red: u8, green: u8, blue: u8)
        ensures
            final(self)@ == apply(
                old(self)@,
                Command::ChangeColor { red: red as int, green: green as int, blue: blue as int },
            ),
    {
        self.color = (red, green, blue);
    }

    pub fn quit(&mut self)
        ensures
            final(self)@ == apply(old(self)@, Command::Quit),
    {
        self.quit = true;
    }

    /// Routes a command to the update of the fields it targets.
    pub fn process(&mut self, message: Message)
        ensures
            final(self)@ == apply(old(self)@, message@),
    {
        match message {
            Message::Resize { width, height } => self.resize(width, height),
            Message::Move(point) => self.move_position(point),
            Message::Echo(msg) => self.echo(msg),
            Message::ChangeColor(r, g, b) => self.change_color(r, g, b),
            Message::Quit => self.quit(),
        }
    }
}

/// The width after a sequence of commands: the one carried by the most
/// recent `Resize`, or the starting width if there is none.
pub open spec fn last_width(s0: StateModel, cs: Seq<Command>) -> int
    decreases cs.len(),
{
    if cs.len() == 0 {
        s0.width
    } else {
        match cs.last() {
            Command::Resize { width, .. } => width,
            _ => last_width(s0, cs.drop_last()),
        }
    }
}

/// The height after a sequence of commands: the one carried by the most
/// recent `Resize`, or the starting height if there is none.
pub open spec fn last_height(s0: StateModel, cs: Seq<Command>) -> int
    decreases cs.len(),
{
    if cs.len() == 0 {
        s0.height
    } else {
        match cs.last() {
            Command::Resize { height, .. } => height,
            _ => last_height(s0, cs.drop_last()),
        }
    }
}

/// The position after a sequence of commands: the one carried by the most
/// recent `Move`, or the starting position if there is none.
pub open spec fn last_position(s0: StateModel, cs: Seq<Command>) -> (int, int)
    decreases cs.len(),
{
    if cs.len() == 0 {
        s0.position
    } else {
        match cs.last() {
            Command::Move { x, y } => (x, y),
            _ => last_position(s0, cs.drop_last()),
        }
    }
}

/// The message after a sequence of commands: the one carried by the most
/// recent `Echo`, or the starting message if there is none.
pub open spec fn last_message(s0: StateModel, cs: Seq<Command>) -> Seq<char>
    decreases cs.len(),
{
    if cs.len() == 0 {
        s0.message
    } else {
        match cs.last() {
            Command::Echo { text } => text,
            _ => last_message(s0, cs.drop_last()),
        }
    }
}

/// The color after a sequence of commands: the one carried by the most
/// recent `ChangeColor`, or the starting color if there is none.
pub open spec fn last_color(s0: StateModel, cs: Seq<Command>) -> (int, int, int)
    decreases cs.len(),
{
    if cs.len() == 0 {
        s0.color
    } else {
        match cs.last() {
            Command::ChangeColor { red, green, blue } => (red, green, blue),
            _ => last_color(s0, cs.drop_last()),
        }
    }
}

/// The quit flag after a sequence of commands: true as soon as any `Quit`
/// occurs, otherwise the starting flag.
pub open spec fn last_quit(s0: StateModel, cs: Seq<Command>) -> bool
    decreases cs.len(),
{
    if cs.len() == 0 {
        s0.quit
    } else {
        match cs.last() {
            Command::Quit => true,
            _ => last_quit(s0, cs.drop_last()),
        }
    }
}

/// After any sequence of commands, each field holds the value carried by
/// the most recent command that targets it, and a field that no command
/// targets keeps its starting value.
pub proof fn lemma_last_command_wins(s0: StateModel, cs: Seq<Command>)
    ensures
        apply_all(s0, cs).width == last_width(s0, cs),
        apply_all(s0, cs).height == last_height(s0, cs),
        apply_all(s0, cs).position == last_position(s0, cs),
        apply_all(s0, cs).message == last_message(s0, cs),
        apply_all(s0, cs).color == last_color(s0, cs),
        apply_all(s0, cs).quit == last_quit(s0, cs),
    decreases cs.len(),
{
    if cs.len() > 0 {
        lemma_last_command_wins(s0, cs.drop_last());
    }
}

/// `Quit` sets the flag, and no command clears it: after one command the
/// flag is set exactly when it already was or the command was `Quit`.
pub proof fn lemma_quit_is_monotone(s: StateModel, c: Command)
    ensures
        apply(s, c).quit == (s.quit || c is Quit),
{
}

/// Once the quit flag is set, no further sequence of commands clears it.
pub proof fn lemma_quit_stays_set(s: StateModel, cs: Seq<Command>)
    requires
        s.quit,
    ensures
        apply_all(s, cs).quit,
    decreases cs.len(),
{
    if cs.len() > 0 {
        lemma_quit_stays_set(s, cs.drop_last());
    }
}

/// Re-applying the same `Resize` yields the same width and height as
/// applying it once.
pub proof fn lemma_resize_idempotent(s: StateModel, width: int, height: int)
    ensures
        ({
            let once = apply(s, Command::Resize { width, height });
            let twice = apply(once, Command::Resize { width, height });
            twice.width == once.width && twice.height == once.height
        }),
{
}

} // verus!
