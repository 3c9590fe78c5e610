//! The input controller: how a key changes the message being typed, and
//! what has to be sent and drawn in response. Reading keys, sending signals
//! and drawing are left to the caller.
use vstd::prelude::*;
use vstd::string::StringExecFns;
use crossterm::event::KeyCode;
use crate::engine::{lemma_three_signals, ControlSignal, EngineModel, EngineState, Signal};
use crate::glyphs::chars_of;

verus! {

/// `String::push` appends the character to the end of the string.
pub assume_specification[ String::push ](s: &mut String, ch: char)
    ensures
        final(s)@ == old(s)@.push(ch),
;

/// A key as the controller sees it.
#[derive(Clone, Debug, PartialEq, Eq)]
pub enum Key {
    /// A printable character.
    Char(char),
    /// The accept key.
    Enter,
    /// The cancel key.
    Esc,
    /// The delete key.
    Backspace,
    /// Any other key, with the text that names it.
    Other(String),
}

/// crossterm's `KeyCode`, carried through as it comes from the terminal.
#[verifier::external_type_specification]
#[verifier::external_body]
pub struct ExKeyCode(crossterm::event::KeyCode);

/// The key that a key code of crossterm stands for.
pub uninterp spec fn key_for(code: KeyCode) -> Key;

/// Tells the variants of crossterm's `KeyCode` apart. `Char`, `Enter`, `Esc`
/// and `Backspace` become the key of the same name; every other code becomes
/// `Key::Other` with the text that the `Debug` impl of `KeyCode` writes for
/// it. The contract claims no more than that the key depends on the code
/// alone.
#[verifier::external_body]
fn decode(code: KeyCode) -> (key: Key)
    ensures
        key == key_for(code),
{
    match code {
        KeyCode::Char(ch) => Key::Char(ch),
        KeyCode::Enter => Key::Enter,
        KeyCode::Esc => Key::Esc,
        KeyCode::Backspace => Key::Backspace,
        other => Key::Other(format!("{:?}", other)),
    }
}

/// One thing for the caller to do in response to a key, in the order given.
#[derive(Clone, Debug, PartialEq, Eq)]
pub enum Command {
    /// Send the signal to the animation engine; a failure to send is ignored.
    Send(ControlSignal),
    /// Write the shutdown notice.
    Notice,
    /// Wait for the animation engine to end, then leave the input loop.
    Finish,
    /// Blank `strip` columns of the input line, write `line` there and show
    /// the cursor.
    Redraw { strip: u16, line: String },
}

/// Mathematical model of a command.
pub enum Step {
    Send(Signal),
    Notice,
    Finish,
    Redraw { strip: nat, line: Seq<char> },
}

impl View for Command {
    type V = Step;

    open spec fn view(&self) -> Step {
        match self {
            Command::Send(signal) => Step::Send(signal@),
            Command::Notice => Step::Notice,
            Command::Finish => Step::Finish,
            Command::Redraw { strip, line } => Step::Redraw { strip: *strip as nat, line: line@ },
        }
    }
}

/// The models of a list of commands.
pub open spec fn steps_of(commands: Seq<Command>) -> Seq<Step> {
    commands.map_values(|c: Command| c@)
}

/// Columns left for the input line once the margin of two is taken off.
pub open spec fn inner_width(width: nat) -> nat {
    if width >= 2 {
        (width - 2) as nat
    } else {
        0
    }
}

/// The characters that a key adds to the message: the character itself, or
/// the text that names a key of another kind.
pub open spec fn typed_text(key: Key) -> Seq<char> {
    match key {
        Key::Char(c) => seq![c],
        Key::Other(name) => name@,
        _ => Seq::empty(),
    }
}

/// `text` can be added to `buffer`: the line stays strictly shorter than
/// the width less the margin of two.
pub open spec fn fits(buffer: Seq<char>, text: Seq<char>, width: nat) -> bool {
    buffer.len() + text.len() + 2 < width
}

/// The message being typed after `key` was handled.
pub open spec fn buffer_after(buffer: Seq<char>, key: Key, width: nat) -> Seq<char> {
    match key {
        Key::Enter => Seq::empty(),
        Key::Esc => buffer,
        Key::Backspace => if buffer.len() > 0 {
            buffer.drop_last()
        } else {
            buffer
        },
        _ => if fits(buffer, typed_text(key), width) {
            buffer + typed_text(key)
        } else {
            buffer
        },
    }
}

/// The text that the accept key sends: what was typed, or the default text
/// where nothing was.
pub open spec fn message_for(buffer: Seq<char>) -> Seq<char> {
    if buffer.len() == 0 {
        "Hello World "@
    } else {
        buffer
    }
}

/// As much of `buffer` as the input line shows.
pub open spec fn shown(buffer: Seq<char>, width: nat) -> Seq<char> {
    if buffer.len() <= inner_width(width) {
        buffer
    } else {
        buffer.take(inner_width(width) as int)
    }
}

/// What the caller has to do for `key`, in order. Every key pauses the
/// animation first. The accept key then sends the message and resumes; the
/// cancel key writes the notice, stops the animation and waits for it to
/// end; every other key has the input line drawn again.
pub open spec fn steps_for(buffer: Seq<char>, key: Key, width: nat) -> Seq<Step> {
    match key {
        Key::Enter => seq![
            Step::Send(Signal::Pause),
            Step::Send(Signal::NewMessage(message_for(buffer))),
            Step::Send(Signal::Resume),
        ],
        Key::Esc => seq![
            Step::Send(Signal::Pause),
            Step::Notice,
            Step::Send(Signal::Stop),
            Step::Finish,
        ],
        _ => seq![
            Step::Send(Signal::Pause),
            Step::Redraw {
                strip: inner_width(width),
                line: shown(buffer_after(buffer, key, width), width),
            },
        ],
    }
}

/// The message after the characters of `text` were typed one by one.
pub open spec fn typed_all(buffer: Seq<char>, text: Seq<char>, width: nat) -> Seq<char>
    decreases text.len(),
{
    if text.len() == 0 {
        buffer
    } else {
        buffer_after(typed_all(buffer, text.drop_last(), width), Key::Char(text.last()), width)
    }
}

/// The capacity clamp: a character is added while the message is shorter
/// than the width less three, and dropped, with the message unchanged, once
/// it has reached that length.
pub proof fn lemma_capacity_clamp(buffer: Seq<char>, c: char, width: nat)
    ensures
        buffer.len() + 3 < width ==> buffer_after(buffer, Key::Char(c), width) == buffer.push(c),
        buffer.len() + 3 >= width ==> buffer_after(buffer, Key::Char(c), width) == buffer,
{
    assert(buffer + seq![c] =~= buffer.push(c));
}

/// Typing into an empty message keeps every character up to the width less
/// three and drops all that follow.
pub proof fn lemma_typing_fills_to_capacity(text: Seq<char>, width: nat)
    ensures
        text.len() + 3 <= width ==> typed_all(Seq::empty(), text, width) == text,
        text.len() + 3 > width && width >= 3 ==> typed_all(Seq::empty(), text, width) == text.take(
            width - 3,
        ),
        width < 3 ==> typed_all(Seq::empty(), text, width) == Seq::<char>::empty(),
    decreases text.len(),
{
    if text.len() == 0 {
        assert(text =~= Seq::<char>::empty());
    } else {
        let front = text.drop_last();
        lemma_typing_fills_to_capacity(front, width);
        lemma_capacity_clamp(typed_all(Seq::empty(), front, width), text.last(), width);
        if text.len() + 3 <= width {
            assert(front.push(text.last()) =~= text);
        } else if width >= 3 {
            if front.len() + 3 <= width {
                assert(front =~= text.take(width - 3));
            } else {
                assert(front.take(width - 3) =~= text.take(width - 3));
            }
        }
    }
}

/// Every key pauses the animation before anything else, and no message is
/// ever sent empty.
pub proof fn lemma_steps_sound(buffer: Seq<char>, key: Key, width: nat)
    ensures
        steps_for(buffer, key, width)[0] == Step::Send(Signal::Pause),
        forall|i: int|
            #![trigger steps_for(buffer, key, width)[i]]
            0 <= i < steps_for(buffer, key, width).len() ==> (steps_for(buffer, key, width)[i] matches Step::Send(
                s,
            ) ==> s.wf()),
        message_for(Seq::empty()).len() == 12,
{
    reveal_strlit("Hello World ");
}

/// The accept key launches the animation from every state but the stopped
/// one: the engine that consumes the three signals in order runs over the
/// message, with its phase kept. A stopped engine is left as it is.
pub proof fn lemma_accept_launches(m: EngineModel, buffer: Seq<char>)
    ensures
        !(m.state is Stopped) ==> m.on_signals(
            seq![Signal::Pause, Signal::NewMessage(message_for(buffer)), Signal::Resume],
        ) == (EngineModel {
            state: EngineState::Running,
            glyphs: m.glyphs.replaced(message_for(buffer)),
            cursor: m.cursor,
        }),
        m.state is Stopped ==> m.on_signals(
            seq![Signal::Pause, Signal::NewMessage(message_for(buffer)), Signal::Resume],
        ) == m,
{
    lemma_three_signals(
        m,
        Signal::Pause,
        Signal::NewMessage(message_for(buffer)),
        Signal::Resume,
    );
}

/// The first `limit` characters of `chars`, or all of them where there are
/// fewer, as a string.
pub fn string_of(chars: &Vec<char>, limit: usize) -> (text: String)
    ensures
        chars@.len() <= limit ==> text@ == chars@,
        chars@.len() > limit ==> text@ == chars@.take(limit as int),
{
    let end: usize = if chars.len() <= limit {
        chars.len()
    } else {
        limit
    };
    let mut text = String::new();
    let mut i: usize = 0;
    while i < end
        invariant
            i <= end <= chars@.len(),
            text@ == chars@.take(i as int),
        decreases end - i,
    {
        text.push(chars[i]);
        assert(text@ =~= chars@.take(i + 1));
        i += 1;
    }
    assert(chars@.take(chars@.len() as int) =~= chars@);
    text
}

/// The input controller: the message typed so far.
#[derive(Debug)]
pub struct InputController {
    buffer: Vec<char>,
}

impl View for InputController {
    type V = Seq<char>;

    closed spec fn view(&self) -> Seq<char> {
        self.buffer@
    }
}

impl InputController {
    /// A controller with nothing typed.
    pub fn new() -> (controller: Self)
        ensures
            controller@ == Seq::<char>::empty(),
    {
        InputController { buffer: Vec::new() }
    }

    /// The message typed so far.
    pub fn buffer(&self) -> (chars: &Vec<char>)
        ensures
            chars@ == self@,
    {
        &self.buffer
    }

    /// Adds `text` to the message if it fits a terminal of `terminal_width`
    /// columns, and drops it otherwise.
    fn type_text(&mut self, text: Vec<char>, terminal_width: u16)
        ensures
            fits(old(self)@, text@, terminal_width as nat) ==> final(self)@ == old(self)@ + text@,
            !fits(old(self)@, text@, terminal_width as nat) ==> final(self)@ == old(self)@,
    {
        let inner: usize = if terminal_width >= 2 {
            (terminal_width - 2) as usize
        } else {
            0
        };
        if text.len() < inner && self.buffer.len() < inner - text.len() {
            let mut text = text;
            self.buffer.append(&mut text);
        }
    }

    /// Handles one key on a terminal of `terminal_width` columns: changes
    /// the message and returns what the caller has to do, in order.
    pub fn handle_key(&mut self, key: Key, terminal_width: u16) -> (commands: Vec<Command>)
        ensures
            final(self)@ == buffer_after(old(self)@, key, terminal_width as nat),
            steps_of(commands@) == steps_for(old(self)@, key, terminal_width as nat),
    {
        let ghost before = self@;
        let ghost width = terminal_width as nat;
        let mut commands: Vec<Command> = Vec::new();
        commands.push(Command::Send(ControlSignal::Pause));
        match key {
            Key::Enter => {
                let message = if self.buffer.len() == 0 {
                    String::from_str("Hello World ")
                } else {
                    string_of(&self.buffer, self.buffer.len())
                };
                commands.push(Command::Send(ControlSignal::NewMessage(message)));
                self.buffer.clear();
                commands.push(Command::Send(ControlSignal::Resume));
            },
            Key::Esc => {
                commands.push(Command::Notice);
                commands.push(Command::Send(ControlSignal::Stop));
                commands.push(Command::Finish);
            },
            Key::Backspace => {
                self.buffer.pop();
                commands.push(self.redraw(terminal_width));
            },
            Key::Char(c) => {
                let mut text: Vec<char> = Vec::new();
                text.push(c);
                assert(text@ =~= seq![c]);
                self.type_text(text, terminal_width);
                commands.push(self.redraw(terminal_width));
            },
            Key::Other(name) => {
                self.type_text(chars_of(name.as_str()), terminal_width);
                commands.push(self.redraw(terminal_width));
            },
        }
        assert(steps_of(commands@) =~= steps_for(before, key, width));
        commands
    }

    /// Handles one key code as the terminal delivers it: decodes it and
    /// does as `handle_key` does for the key it stands for.
    pub fn handle_code(&mut self, code: KeyCode, terminal_width: u16) -> (commands: Vec<Command>)
        ensures
            final(self)@ == buffer_after(old(self)@, key_for(code), terminal_width as nat),
            steps_of(commands@) == steps_for(old(self)@, key_for(code), terminal_width as nat),
    {
        let key = decode(code);
        self.handle_key(key, terminal_width)
    }

    /// The command that draws the input line again.
    fn redraw(&self, terminal_width: u16) -> (command: Command)
        ensures
            command@ == (Step::Redraw {
                strip: inner_width(terminal_width as nat),
                line: shown(self@, terminal_width as nat),
            }),
    {
        let strip: u16 = if terminal_width >= 2 {
            terminal_width - 2
        } else {
            0
        };
        Command::Redraw { strip, line: string_of(&self.buffer, strip as usize) }
    }
}

} // verus!
