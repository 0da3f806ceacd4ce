//! Keyboard input: the symbolic keys the window layer reports, and the
//! camera controls they are bound to.
use vstd::prelude::*;

verus! {

/// A key, as reported by the window layer.
#[derive(Clone, Copy, Debug, PartialEq, Eq, Structural)]
pub enum Key {
    Digit(u8),
    Letter(char),
    Escape,
    Up,
    Down,
    Left,
    Right,
    Space,
    ShiftLeft,
    Control,
    Other,
}

/// What a key press asks of the camera controller or of the window.
#[derive(Clone, Copy, Debug, PartialEq, Eq, Structural)]
pub enum Command {
    MoveLeft,
    MoveRight,
    MoveForward,
    MoveBackwards,
    MoveUp,
    MoveDown,
    Exit,
}

/// The key bindings: arrows and WASD move in the horizontal plane, space and
/// left shift move up and down, escape closes the window.
pub open spec fn bound_command(key: Key) -> Option<Command> {
    match key {
        Key::Left => Some(Command::MoveLeft),
        Key::Letter('a') => Some(Command::MoveLeft),
        Key::Right => Some(Command::MoveRight),
        Key::Letter('d') => Some(Command::MoveRight),
        Key::Up => Some(Command::MoveForward),
        Key::Letter('w') => Some(Command::MoveForward),
        Key::Down => Some(Command::MoveBackwards),
        Key::Letter('s') => Some(Command::MoveBackwards),
        Key::Space => Some(Command::MoveUp),
        Key::ShiftLeft => Some(Command::MoveDown),
        Key::Escape => Some(Command::Exit),
        _ => None,
    }
}

/// The character of a decimal digit.
pub open spec fn digit_char(d: nat) -> char
    recommends
        d < 10,
{
    seq!['0', '1', '2', '3', '4', '5', '6', '7', '8', '9'][d as int]
}

/// The decimal representation of `n`, without leading zeros.
pub open spec fn decimal(n: nat) -> Seq<char>
    decreases n,
{
    if n < 10 {
        seq![digit_char(n)]
    } else {
        decimal(n / 10).push(digit_char(n % 10))
    }
}

/// What `char::to_lowercase` yields for `c`.
pub uninterp spec fn lowercase_of(c: char) -> Seq<char>;

/// The text shown for a key: a digit in decimal, a letter in lower case,
/// nothing for the other keys.
pub open spec fn key_text(key: Key) -> Seq<char> {
    match key {
        Key::Digit(d) => decimal(d as nat),
        Key::Letter(c) => lowercase_of(c),
        _ => Seq::empty(),
    }
}

/// Relies on the `Display` impl of `u8`, which writes the number in decimal.
#[verifier::external_body]
fn u8_to_decimal(d: u8) -> (r: String)
    ensures
        r@ == decimal(d as nat),
{
    d.to_string()
}

/// Relies on `char::to_lowercase`, written out through its `Display` impl.
#[verifier::external_body]
fn char_to_lowercase(c: char) -> (r: String)
    ensures
        r@ == lowercase_of(c),
{
    c.to_lowercase().to_string()
}

impl Key {
    /// The command bound to this key, if any.
    pub fn command(&self) -> (r: Option<Command>)
        ensures
            r == bound_command(*self),
    {
        match self {
            Key::Left => Some(Command::MoveLeft),
            Key::Right => Some(Command::MoveRight),
            Key::Up => Some(Command::MoveForward),
            Key::Down => Some(Command::MoveBackwards),
            Key::Letter(c) => {
                if *c == 'a' {
                    Some(Command::MoveLeft)
                } else if *c == 'd' {
                    Some(Command::MoveRight)
                } else if *c == 'w' {
                    Some(Command::MoveForward)
                } else if *c == 's' {
                    Some(Command::MoveBackwards)
                } else {
                    None
                }
            },
            Key::Space => Some(Command::MoveUp),
            Key::ShiftLeft => Some(Command::MoveDown),
            Key::Escape => Some(Command::Exit),
            _ => None,
        }
    }

    /// The text shown for this key.
    pub fn text(&self) -> (r: String)
        ensures
            r@ == key_text(*self),
    {
        match self {
            Key::Digit(d) => u8_to_decimal(*d),
            Key::Letter(c) => char_to_lowercase(*c),
            _ => String::new(),
        }
    }
}

} // verus!
