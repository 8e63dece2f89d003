//! The event classifier.
//!
//! Each function here inspects a single borrowed [`Event`] and reports
//! whether it matches one of the shapes the classifier knows: a keyboard key
//! changing state, a mouse button changing state, or a window-close request.
//! Every function is total and pure: an unrecognized shape yields the
//! neutral answer (`None` or `false`), never an error.

use vstd::prelude::*;

verus! {

/// Identifies a physical or virtual keyboard key by its platform key code.
#[derive(Clone, Copy, Debug, PartialEq, Eq, Structural)]
pub struct KeyCode {
    /// The platform's numeric code for the key.
    pub code: u32,
}

/// Identifies a mouse button.
#[derive(Clone, Copy, Debug, PartialEq, Eq, Structural)]
pub enum MouseButton {
    Left,
    Right,
    Middle,
    /// Any further button, by its platform number.
    Other(u16),
}

/// Whether an input went to the pressed or to the released position in the
/// event being classified.
#[derive(Clone, Copy, Debug, PartialEq, Eq, Structural)]
pub enum Transition {
    Pressed,
    Released,
}

/// A single platform occurrence, reduced to the shapes the classifier
/// recognizes. Every shape it does not recognize is `Other`; classification
/// treats it as a non-match, never as an error.
#[derive(Clone, Copy, Debug)]
pub enum Event {
    /// A keyboard key changed state. The key identity is absent when the
    /// platform reported no resolvable virtual key for the event.
    KeyboardInput { key: Option<KeyCode>, state: Transition },
    /// A mouse button changed state.
    MouseInput { button: MouseButton, state: Transition },
    /// The user asked to close the window.
    CloseRequested,
    /// Any event shape the classifier does not recognize.
    Other,
}

/// The key and transition that an event carries: present exactly when the
/// event is a keyboard event whose key identity is resolvable.
pub open spec fn spec_get_key(event: Event) -> Option<(KeyCode, Transition)> {
    match event {
        Event::KeyboardInput { key: Some(k), state } => Some((k, state)),
        _ => None,
    }
}

/// Whether an event is exactly a window-close request.
pub open spec fn spec_is_close_requested(event: Event) -> bool {
    event is CloseRequested
}

/// The button and transition that an event carries: present exactly when
/// the event is a mouse-button event.
pub open spec fn spec_get_mouse_button(event: Event) -> Option<(MouseButton, Transition)> {
    match event {
        Event::MouseInput { button, state } => Some((button, state)),
        _ => None,
    }
}

/// If this event was for manipulating a keyboard key then this will return
/// the key code and the new state.
#[must_use]
pub fn get_key(event: &Event) -> (r: Option<(KeyCode, Transition)>)
    ensures
        r == spec_get_key(*event),
{
    match *event {
        Event::KeyboardInput { key: Some(k), state } => Some((k, state)),
        _ => None,
    }
}

/// Returns true iff the event is a keyboard event carrying exactly the
/// provided key code with the wanted transition.
#[must_use]
pub fn is_key_transition(event: &Event, key_code: KeyCode, wanted: Transition) -> (r: bool)
    ensures
        r == (spec_get_key(*event) == Some((key_code, wanted))),
{
    match get_key(event) {
        Some((key, state)) => key == key_code && state == wanted,
        None => false,
    }
}

/// Returns true if the event passed in is a key down event for the
/// provided key code.
#[must_use]
pub fn is_key_down(event: &Event, key_code: KeyCode) -> (r: bool)
    ensures
        r == (spec_get_key(*event) == Some((key_code, Transition::Pressed))),
{
    is_key_transition(event, key_code, Transition::Pressed)
}

/// Returns true if the event passed in is a key up event for the
/// provided key code.
#[must_use]
pub fn is_key_up(event: &Event, key_code: KeyCode) -> (r: bool)
    ensures
        r == (spec_get_key(*event) == Some((key_code, Transition::Released))),
{
    is_key_transition(event, key_code, Transition::Released)
}

/// Returns true if the event passed in is a request to close the window.
#[must_use]
pub fn is_close_requested(event: &Event) -> (r: bool)
    ensures
        r == spec_is_close_requested(*event),
{
    match *event {
        Event::CloseRequested => true,
        _ => false,
    }
}

/// If this event was for manipulating a mouse button, this will return the
/// button and the new state.
#[must_use]
pub fn get_mouse_button(event: &Event) -> (r: Option<(MouseButton, Transition)>)
    ensures
        r == spec_get_mouse_button(*event),
{
    match *event {
        Event::MouseInput { button, state } => Some((button, state)),
        _ => None,
    }
}

/// Returns true iff the event is a mouse-button event carrying exactly the
/// provided button with the wanted transition.
#[must_use]
pub fn is_mouse_button_transition(event: &Event, button: MouseButton, wanted: Transition) -> (r:
    bool)
    ensures
        r == (spec_get_mouse_button(*event) == Some((button, wanted))),
{
    match get_mouse_button(event) {
        Some((pressed_button, state)) => pressed_button == button && state == wanted,
        None => false,
    }
}

/// Returns true if the event passed in is a mouse button down event for the
/// provided button.
#[must_use]
pub fn is_mouse_button_down(event: &Event, button: MouseButton) -> (r: bool)
    ensures
        r == (spec_get_mouse_button(*event) == Some((button, Transition::Pressed))),
{
    is_mouse_button_transition(event, button, Transition::Pressed)
}

/// For every event that is not a keyboard event, no key is extracted.
pub proof fn lemma_get_key_non_keyboard(event: Event)
    requires
        !(event is KeyboardInput),
    ensures
        spec_get_key(event) is None,
{
}

/// A keyboard event with a resolvable key yields exactly that key and its
/// transition, and the key-down and key-up queries agree with the
/// transition.
pub proof fn lemma_get_key_keyboard(event: Event, key: KeyCode, state: Transition)
    requires
        event == (Event::KeyboardInput { key: Some(key), state }),
    ensures
        spec_get_key(event) == Some((key, state)),
        (spec_get_key(event) == Some((key, Transition::Pressed))) <==> state == Transition::Pressed,
        (spec_get_key(event) == Some((key, Transition::Released))) <==> state
            == Transition::Released,
{
}

/// A keyboard event with no resolvable key yields nothing, whatever the
/// transition.
pub proof fn lemma_get_key_unresolvable(event: Event, state: Transition)
    requires
        event == (Event::KeyboardInput { key: None, state }),
    ensures
        spec_get_key(event) is None,
{
}

/// The close-request query holds of exactly the close-request shape; in
/// particular it is false for every keyboard event and every mouse event.
pub proof fn lemma_close_requested_exact(event: Event)
    ensures
        spec_is_close_requested(event) <==> event == Event::CloseRequested,
        event is KeyboardInput || event is MouseInput ==> !spec_is_close_requested(event),
{
}

/// For every event that is not a mouse-button event, no button is
/// extracted.
pub proof fn lemma_get_mouse_button_non_mouse(event: Event)
    requires
        !(event is MouseInput),
    ensures
        spec_get_mouse_button(event) is None,
{
}

/// A mouse-button event yields exactly its button and its transition, and
/// the button-down query agrees with the transition.
pub proof fn lemma_get_mouse_button(event: Event, button: MouseButton, state: Transition)
    requires
        event == (Event::MouseInput { button, state }),
    ensures
        spec_get_mouse_button(event) == Some((button, state)),
        (spec_get_mouse_button(event) == Some((button, Transition::Pressed))) <==> state
            == Transition::Pressed,
{
}

/// Classification is a function of the event alone: any two results that
/// meet a classifier's contract on one and the same event are equal, so a
/// second call with the same input yields an identical result.
pub proof fn lemma_classification_deterministic(
    event: Event,
    key1: Option<(KeyCode, Transition)>,
    key2: Option<(KeyCode, Transition)>,
    button1: Option<(MouseButton, Transition)>,
    button2: Option<(MouseButton, Transition)>,
    close1: bool,
    close2: bool,
)
    requires
        key1 == spec_get_key(event),
        key2 == spec_get_key(event),
        button1 == spec_get_mouse_button(event),
        button2 == spec_get_mouse_button(event),
        close1 == spec_is_close_requested(event),
        close2 == spec_is_close_requested(event),
    ensures
        key1 == key2,
        button1 == button2,
        close1 == close2,
{
}

} // verus!

