//! The animation engine: which state it is in, how a control signal moves
//! it, and which frame it draws next. Waiting for signals, drawing and
//! sleeping are left to the caller.
use vstd::prelude::*;
use crate::glyphs::{CharCursor, CharGen};
use crate::perimeter::{PerimeterCursor, PositionGenerator};

verus! {

/// Time between two frames while the animation runs, in milliseconds.
pub const FRAME_PERIOD_MS: u64 = 10;

/// What the input side tells the animation engine.
#[derive(Clone, Debug, PartialEq, Eq)]
pub enum ControlSignal {
    Pause,
    Stop,
    Resume,
    NewMessage(String),
}

/// Mathematical model of a control signal.
pub enum Signal {
    Pause,
    Stop,
    Resume,
    NewMessage(Seq<char>),
}

impl Signal {
    /// A message is never sent empty.
    pub open spec fn wf(self) -> bool {
        self matches Signal::NewMessage(text) ==> text.len() > 0
    }
}

impl View for ControlSignal {
    type V = Signal;

    open spec fn view(&self) -> Signal {
        match self {
            ControlSignal::Pause => Signal::Pause,
            ControlSignal::Stop => Signal::Stop,
            ControlSignal::Resume => Signal::Resume,
            ControlSignal::NewMessage(text) => Signal::NewMessage(text@),
        }
    }
}

/// The model of a signal that may or may not have arrived.
pub open spec fn pending_view(pending: Option<ControlSignal>) -> Option<Signal> {
    match pending {
        Some(signal) => Some(signal@),
        None => None,
    }
}

/// The states of the animation engine.
#[derive(Clone, Copy, Debug, PartialEq, Eq, Structural)]
pub enum EngineState {
    AwaitingFirstMessage,
    Running,
    Paused,
    Stopped,
}

/// One character to draw at one cell.
#[derive(Clone, Copy, Debug, PartialEq, Eq, Structural)]
pub struct Frame {
    pub x: u16,
    pub y: u16,
    pub glyph: char,
}

/// Mathematical model of the animation engine.
pub struct EngineModel {
    pub state: EngineState,
    pub glyphs: CharCursor,
    pub cursor: PerimeterCursor,
}

impl EngineModel {
    /// The engine as it starts: waiting, with a placeholder text, at the
    /// origin of a `width` x `height` rectangle.
    pub open spec fn initial(width: nat, height: nat) -> Self {
        EngineModel {
            state: EngineState::AwaitingFirstMessage,
            glyphs: CharCursor::fresh("hello world."@),
            cursor: PerimeterCursor::start(width, height),
        }
    }

    /// Both generators can emit.
    pub open spec fn wf(self) -> bool {
        self.glyphs.ready() && self.cursor.wf()
    }

    /// The engine waits for a signal and draws nothing meanwhile.
    pub open spec fn suspended(self) -> bool {
        self.state is AwaitingFirstMessage || self.state is Paused
    }

    /// The engine after it consumed `signal`.
    ///
    /// Suspended, it takes a new message without leaving its state, starts
    /// running on `Resume` and stops on `Stop`. Running, it reacts to `Pause`
    /// alone and drops every other signal. Stopped, it stays as it is.
    pub open spec fn on_signal(self, signal: Signal) -> Self {
        if self.suspended() {
            match signal {
                Signal::NewMessage(text) => EngineModel {
                    glyphs: self.glyphs.replaced(text),
                    ..self
                },
                Signal::Resume => EngineModel { state: EngineState::Running, ..self },
                Signal::Stop => EngineModel { state: EngineState::Stopped, ..self },
                Signal::Pause => self,
            }
        } else if self.state is Running && signal is Pause {
            EngineModel { state: EngineState::Paused, ..self }
        } else {
            self
        }
    }

    /// Polling `pending` while running draws a frame unless it is `Pause`.
    pub open spec fn draws(self, pending: Option<Signal>) -> bool {
        self.state is Running && pending != Some(Signal::Pause)
    }

    /// The engine after one frame was drawn: both generators moved on.
    pub open spec fn rendered(self) -> Self {
        EngineModel { glyphs: self.glyphs.advance(), cursor: self.cursor.step(), ..self }
    }

    /// The engine after one turn of its loop, in which `pending` is the
    /// signal found by a poll, if any.
    pub open spec fn on_poll(self, pending: Option<Signal>) -> Self {
        if self.draws(pending) {
            self.rendered()
        } else {
            match pending {
                Some(signal) => self.on_signal(signal),
                None => self,
            }
        }
    }

    /// The engine after it consumed `signals` one after the other.
    pub open spec fn on_signals(self, signals: Seq<Signal>) -> Self
        decreases signals.len(),
    {
        if signals.len() == 0 {
            self
        } else {
            self.on_signal(signals[0]).on_signals(signals.drop_first())
        }
    }
}

/// Consuming a signal or taking a turn of the loop keeps both generators
/// able to emit, and never changes the rectangle.
pub proof fn lemma_engine_stays_wf(m: EngineModel, signal: Signal, pending: Option<Signal>)
    requires
        m.wf(),
        signal.wf(),
        pending matches Some(s) ==> s.wf(),
    ensures
        m.on_signal(signal).wf(),
        m.on_poll(pending).wf(),
        m.on_signal(signal).cursor == m.cursor,
        m.on_poll(pending).cursor.width == m.cursor.width,
        m.on_poll(pending).cursor.height == m.cursor.height,
{
    crate::glyphs::lemma_advance(m.glyphs);
    crate::perimeter::lemma_step(m.cursor);
}

/// Consuming three signals in a row is consuming the first, then the
/// second, then the third.
pub proof fn lemma_three_signals(m: EngineModel, first: Signal, second: Signal, third: Signal)
    ensures
        m.on_signals(seq![first, second, third]) == m.on_signal(first).on_signal(second).on_signal(
            third,
        ),
{
    let all = seq![first, second, third];
    let rest = seq![second, third];
    let last = seq![third];
    assert(all.drop_first() =~= rest);
    assert(rest.drop_first() =~= last);
    assert(last.drop_first() =~= Seq::<Signal>::empty());
    let m1 = m.on_signal(first);
    let m2 = m1.on_signal(second);
    let m3 = m2.on_signal(third);
    assert(m3.on_signals(last.drop_first()) == m3);
    assert(m2.on_signals(last) == m3);
    assert(m1.on_signals(rest) == m3);
}

/// Every signal of `signals` is a message.
pub open spec fn all_messages(signals: Seq<Signal>) -> bool {
    forall|i: int| 0 <= i < signals.len() ==> #[trigger] signals[i] is NewMessage
}

/// A suspended engine that consumes any number of messages stays in its
/// state, with the walk where it was, and holds the text of the last one.
pub proof fn lemma_messages_while_suspended(m: EngineModel, signals: Seq<Signal>)
    requires
        m.suspended(),
        all_messages(signals),
    ensures
        m.on_signals(signals).state == m.state,
        m.on_signals(signals).cursor == m.cursor,
        signals.len() > 0 ==> Signal::NewMessage(m.on_signals(signals).glyphs.characters)
            == signals.last(),
        signals.len() == 0 ==> m.on_signals(signals) == m,
    decreases signals.len(),
{
    if signals.len() > 0 {
        let rest = signals.drop_first();
        assert forall|i: int| 0 <= i < rest.len() implies #[trigger] rest[i] is NewMessage by {
            assert(rest[i] == signals[i + 1]);
        }
        lemma_messages_while_suspended(m.on_signal(signals[0]), rest);
        if rest.len() > 0 {
            assert(rest.last() == signals.last());
        }
    }
}

/// A message sent between `Pause` and `Resume` is not lost: a running engine
/// that consumes `Pause`, the message and `Resume` in this order runs again,
/// over the new text, with its phase kept and the walk where it was.
pub proof fn lemma_message_between_pause_and_resume(m: EngineModel, text: Seq<char>)
    requires
        m.state is Running,
    ensures
        m.on_signals(seq![Signal::Pause, Signal::NewMessage(text), Signal::Resume]) == (EngineModel {
            state: EngineState::Running,
            glyphs: m.glyphs.replaced(text),
            cursor: m.cursor,
        }),
        m.on_poll(Some(Signal::Pause)).on_signal(Signal::NewMessage(text)).on_signal(
            Signal::Resume,
        ) == m.on_signals(seq![Signal::Pause, Signal::NewMessage(text), Signal::Resume]),
{
    lemma_three_signals(m, Signal::Pause, Signal::NewMessage(text), Signal::Resume);
}

/// Nor is any of several messages sent between `Pause` and `Resume`: the
/// engine that consumed them all while paused runs, after `Resume`, over
/// the text of the last one.
pub proof fn lemma_messages_between_pause_and_resume(m: EngineModel, messages: Seq<Signal>)
    requires
        m.state is Running,
        all_messages(messages),
        messages.len() > 0,
    ensures
        m.on_signal(Signal::Pause).on_signals(messages).on_signal(Signal::Resume).state is Running,
        Signal::NewMessage(
            m.on_signal(Signal::Pause).on_signals(messages).on_signal(
                Signal::Resume,
            ).glyphs.characters,
        ) == messages.last(),
        m.on_signal(Signal::Pause).on_signals(messages).on_signal(Signal::Resume).cursor
            == m.cursor,
{
    lemma_messages_while_suspended(m.on_signal(Signal::Pause), messages);
}

/// An engine that has not been started draws nothing, whatever is polled,
/// and `Stop` ends it from every state but the running one, where only
/// `Pause` is heard. A stopped engine never changes again.
pub proof fn lemma_stop(m: EngineModel, signal: Signal, pending: Option<Signal>)
    ensures
        m.suspended() ==> m.on_signal(Signal::Stop).state is Stopped,
        m.suspended() ==> !m.draws(pending),
        m.state is Stopped ==> m.on_signal(signal) == m && m.on_poll(pending) == m,
{
}

/// The animation engine: its state and the two generators it owns.
#[derive(Debug)]
pub struct AnimationEngine {
    state: EngineState,
    glyphs: CharGen,
    cursor: PositionGenerator,
}

impl View for AnimationEngine {
    type V = EngineModel;

    closed spec fn view(&self) -> EngineModel {
        EngineModel { state: self.state, glyphs: self.glyphs@, cursor: self.cursor@ }
    }
}

impl AnimationEngine {
    /// An engine for a terminal of `width` columns and `height` rows, waiting
    /// for its first message.
    pub fn new(width: u16, height: u16) -> (engine: Self)
        requires
            width >= 1,
            height >= 1,
        ensures
            engine@ == EngineModel::initial(width as nat, height as nat),
            engine@.wf(),
    {
        proof {
            reveal_strlit("hello world.");
        }
        AnimationEngine {
            state: EngineState::AwaitingFirstMessage,
            glyphs: CharGen::new("hello world."),
            cursor: PositionGenerator::new(width, height),
        }
    }

    /// The state the engine is in.
    pub fn state(&self) -> (state: EngineState)
        ensures
            state == self@.state,
    {
        self.state
    }

    /// Consumes one signal.
    pub fn receive(&mut self, signal: ControlSignal)
        requires
            old(self)@.wf(),
            signal@.wf(),
        ensures
            final(self)@ == old(self)@.on_signal(signal@),
            final(self)@.wf(),
    {
        match self.state {
            EngineState::AwaitingFirstMessage | EngineState::Paused => {
                match signal {
                    ControlSignal::NewMessage(text) => {
                        self.glyphs.update(text.as_str());
                    },
                    ControlSignal::Resume => {
                        self.state = EngineState::Running;
                    },
                    ControlSignal::Stop => {
                        self.state = EngineState::Stopped;
                    },
                    ControlSignal::Pause => {},
                }
            },
            EngineState::Running => {
                match signal {
                    ControlSignal::Pause => {
                        self.state = EngineState::Paused;
                    },
                    _ => {},
                }
            },
            EngineState::Stopped => {},
        }
    }

    /// One turn of the engine's loop. `pending` is what a poll of the
    /// channel found. While running, anything but `Pause` lets the engine
    /// emit the next frame and move both generators on; `Pause` suspends it.
    /// In the other states the signal, if any, is consumed as by `receive`
    /// and no frame is emitted.
    pub fn poll(&mut self, pending: Option<ControlSignal>) -> (frame: Option<Frame>)
        requires
            old(self)@.wf(),
            pending_view(pending) matches Some(s) ==> s.wf(),
        ensures
            final(self)@ == old(self)@.on_poll(pending_view(pending)),
            final(self)@.wf(),
            frame is Some == old(self)@.draws(pending_view(pending)),
            frame matches Some(f) ==> f.x == old(self)@.cursor.x && f.y == old(self)@.cursor.y
                && f.glyph == old(self)@.glyphs.current() && old(self)@.cursor.on_border(),
    {
        let running = match self.state {
            EngineState::Running => true,
            _ => false,
        };
        let pause = match pending {
            Some(ControlSignal::Pause) => true,
            _ => false,
        };
        if running && !pause {
            let cell = self.cursor.next();
            let glyph = self.glyphs.next();
            match (cell, glyph) {
                (Some((x, y)), Some(glyph)) => Some(Frame { x, y, glyph }),
                _ => None,
            }
        } else {
            match pending {
                Some(signal) => {
                    self.receive(signal);
                },
                None => {},
            }
            None
        }
    }
}

} // verus!
