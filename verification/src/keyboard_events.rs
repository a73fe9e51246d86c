//! Key bindings: from a raw input event, and the one before it, to a command.

use vstd::prelude::*;

verus! {

/// What a decoded input event asks the dashboard to do.
#[derive(Clone, Copy, Debug, PartialEq, Eq, Structural)]
pub enum KeyboardEvent {
    Quit,
    Close,
    Update,
    ScrollDown,
    ScrollUp,
    ScrollPageDown,
    ScrollPageUp,
    ScrollEnd,
    ScrollStart,
    Other,
}

/// The key of a key event, as far as the bindings tell keys apart.
#[derive(Clone, Copy, Debug, PartialEq, Eq, Structural)]
pub enum KeyCode {
    Char(char),
    Esc,
    Other,
}

/// The modifier keys held during a key event.
#[derive(Clone, Copy, Debug, PartialEq, Eq, Structural)]
pub struct Modifiers {
    pub shift: bool,
    pub control: bool,
    pub alt: bool,
    pub logo: bool,
    pub hyper: bool,
    pub meta: bool,
}

/// A key together with the modifiers held with it.
#[derive(Clone, Copy, Debug, PartialEq, Eq, Structural)]
pub struct KeyPress {
    pub code: KeyCode,
    pub modifiers: Modifiers,
}

/// An input notification before decoding. Everything that is not a key
/// event (mouse, resize, paste, focus) is `Other`.
#[derive(Clone, Copy, Debug, PartialEq, Eq, Structural)]
pub enum RawEvent {
    Key(KeyPress),
    Other,
}

impl Modifiers {
    /// No modifier held.
    #[verifier::allow_in_spec]
    pub fn none() -> Modifiers
        returns
            (Modifiers {
                shift: false,
                control: false,
                alt: false,
                logo: false,
                hyper: false,
                meta: false,
            }),
    {
        Modifiers { shift: false, control: false, alt: false, logo: false, hyper: false, meta: false }
    }

    /// Shift held, and nothing else.
    #[verifier::allow_in_spec]
    pub fn shift() -> Modifiers
        returns
            (Modifiers {
                shift: true,
                control: false,
                alt: false,
                logo: false,
                hyper: false,
                meta: false,
            }),
    {
        Modifiers { shift: true, control: false, alt: false, logo: false, hyper: false, meta: false }
    }

    /// Control held, and nothing else.
    #[verifier::allow_in_spec]
    pub fn control() -> Modifiers
        returns
            (Modifiers {
                shift: false,
                control: true,
                alt: false,
                logo: false,
                hyper: false,
                meta: false,
            }),
    {
        Modifiers { shift: false, control: true, alt: false, logo: false, hyper: false, meta: false }
    }
}

impl RawEvent {
    /// The event of `code` pressed with exactly `modifiers` held.
    #[verifier::allow_in_spec]
    pub fn key(code: KeyCode, modifiers: Modifiers) -> RawEvent
        returns
            RawEvent::Key(KeyPress { code, modifiers }),
    {
        RawEvent::Key(KeyPress { code, modifiers })
    }

    /// The character `c` typed with no modifier held.
    #[verifier::allow_in_spec]
    pub fn plain(c: char) -> RawEvent
        returns
            RawEvent::Key(KeyPress { code: KeyCode::Char(c), modifiers: Modifiers::none() }),
    {
        RawEvent::Key(KeyPress { code: KeyCode::Char(c), modifiers: Modifiers::none() })
    }

    /// The character `c` typed with control held, and nothing else.
    #[verifier::allow_in_spec]
    pub fn ctrl(c: char) -> RawEvent
        returns
            RawEvent::Key(KeyPress { code: KeyCode::Char(c), modifiers: Modifiers::control() }),
    {
        RawEvent::Key(KeyPress { code: KeyCode::Char(c), modifiers: Modifiers::control() })
    }

    /// The character `c` typed with shift held, and nothing else.
    #[verifier::allow_in_spec]
    pub fn shifted(c: char) -> RawEvent
        returns
            RawEvent::Key(KeyPress { code: KeyCode::Char(c), modifiers: Modifiers::shift() }),
    {
        RawEvent::Key(KeyPress { code: KeyCode::Char(c), modifiers: Modifiers::shift() })
    }

    /// The escape key with no modifier held.
    #[verifier::allow_in_spec]
    pub fn escape() -> RawEvent
        returns
            RawEvent::Key(KeyPress { code: KeyCode::Esc, modifiers: Modifiers::none() }),
    {
        RawEvent::Key(KeyPress { code: KeyCode::Esc, modifiers: Modifiers::none() })
    }
}

/// The binding table. `g` alone is bound to nothing; it scrolls to the start
/// only when the event before it was a plain `g` as well.
pub open spec fn decode(event: RawEvent, prev_event: Option<RawEvent>) -> KeyboardEvent {
    if event == RawEvent::plain('q') || event == RawEvent::ctrl('c') {
        KeyboardEvent::Quit
    } else if event == RawEvent::escape() {
        KeyboardEvent::Close
    } else if event == RawEvent::plain('j') {
        KeyboardEvent::ScrollDown
    } else if event == RawEvent::plain('k') {
        KeyboardEvent::ScrollUp
    } else if event == RawEvent::ctrl('d') {
        KeyboardEvent::ScrollPageDown
    } else if event == RawEvent::ctrl('u') {
        KeyboardEvent::ScrollPageUp
    } else if event == RawEvent::shifted('G') {
        KeyboardEvent::ScrollEnd
    } else if event == RawEvent::shifted('U') {
        KeyboardEvent::Update
    } else if event == RawEvent::plain('g') && prev_event == Some(RawEvent::plain('g')) {
        KeyboardEvent::ScrollStart
    } else {
        KeyboardEvent::Other
    }
}

/// Decodes `event`, given the event that was processed just before it.
pub fn get_keyboard_event(event: &RawEvent, prev_event: &Option<RawEvent>) -> (command:
    KeyboardEvent)
    ensures
        command == decode(*event, *prev_event),
{
    match event {
        RawEvent::Key(key) => {
            let plain = key.modifiers == Modifiers::none();
            let ctrl = key.modifiers == Modifiers::control();
            let shift = key.modifiers == Modifiers::shift();
            match key.code {
                KeyCode::Char(c) => {
                    if (plain && c == 'q') || (ctrl && c == 'c') {
                        KeyboardEvent::Quit
                    } else if plain && c == 'j' {
                        KeyboardEvent::ScrollDown
                    } else if plain && c == 'k' {
                        KeyboardEvent::ScrollUp
                    } else if ctrl && c == 'd' {
                        KeyboardEvent::ScrollPageDown
                    } else if ctrl && c == 'u' {
                        KeyboardEvent::ScrollPageUp
                    } else if shift && c == 'G' {
                        KeyboardEvent::ScrollEnd
                    } else if shift && c == 'U' {
                        KeyboardEvent::Update
                    } else if plain && c == 'g' {
                        match prev_event {
                            Some(prev) => if *prev == RawEvent::plain('g') {
                                KeyboardEvent::ScrollStart
                            } else {
                                KeyboardEvent::Other
                            },
                            None => KeyboardEvent::Other,
                        }
                    } else {
                        KeyboardEvent::Other
                    }
                },
                KeyCode::Esc => if plain {
                    KeyboardEvent::Close
                } else {
                    KeyboardEvent::Other
                },
                KeyCode::Other => KeyboardEvent::Other,
            }
        },
        RawEvent::Other => KeyboardEvent::Other,
    }
}

/// The event to hand in as `prev_event` with the next one. A `g` that just
/// completed `gg` is used up: the `g` after it starts a new sequence.
#[verifier::allow_in_spec]
pub fn lookback_after(event: RawEvent, command: KeyboardEvent) -> Option<RawEvent>
    returns
        (if command == KeyboardEvent::ScrollStart {
            None::<RawEvent>
        } else {
            Some(event)
        }),
{
    if command == KeyboardEvent::ScrollStart {
        None
    } else {
        Some(event)
    }
}

/// A command comes from the event alone, whatever went before, unless the
/// event is a plain `g`.
pub proof fn lemma_only_g_looks_back(
    event: RawEvent,
    prev_event: Option<RawEvent>,
    other_prev_event: Option<RawEvent>,
)
    requires
        event != RawEvent::plain('g'),
    ensures
        decode(event, prev_event) == decode(event, other_prev_event),
        decode(event, prev_event) != KeyboardEvent::ScrollStart,
{
}

/// A plain `g` scrolls to the start exactly when the event remembered
/// before it is a plain `g`, and is dropped otherwise.
pub proof fn lemma_g_needs_g(prev_event: Option<RawEvent>)
    ensures
        decode(RawEvent::plain('g'), prev_event) == if prev_event == Some(RawEvent::plain('g')) {
            KeyboardEvent::ScrollStart
        } else {
            KeyboardEvent::Other
        },
{
}

/// Every event is remembered for the next one, whatever it decoded to,
/// `Other` included. The one exception is the `g` that completed `gg`.
pub proof fn lemma_lookback_keeps_event(event: RawEvent, prev_event: Option<RawEvent>)
    ensures
        decode(event, prev_event) != KeyboardEvent::ScrollStart ==> lookback_after(
            event,
            decode(event, prev_event),
        ) == Some(event),
        decode(event, prev_event) == KeyboardEvent::ScrollStart ==> lookback_after(
            event,
            decode(event, prev_event),
        ) is None,
{
}

/// Two events in a row never both scroll to the start: after a completed
/// `gg` nothing is remembered, so whatever comes next is decoded afresh.
pub proof fn lemma_gg_is_used_up(first: RawEvent, prev_event: Option<RawEvent>, second: RawEvent)
    requires
        decode(first, prev_event) == KeyboardEvent::ScrollStart,
    ensures
        lookback_after(first, decode(first, prev_event)) is None,
        decode(second, lookback_after(first, decode(first, prev_event)))
            != KeyboardEvent::ScrollStart,
        decode(second, lookback_after(first, decode(first, prev_event))) == decode(second, None),
{
}

} // verus!
