//! Classification of platform input events and resolution of named logical
//! inputs against an input-state store.
//!
//! The [`event`] module holds the event classifier: stateless, total
//! functions that pattern-match a single platform [`event::Event`] and
//! extract a keyboard key with its transition, a mouse button with its
//! transition, or a window-close signal.
//!
//! The [`store`] module holds the named-input resolver: stateless, total
//! functions that translate an optional logical input name into a numeric
//! axis value or a boolean action state by querying an
//! [`store::InputStateStore`], falling back to a neutral value when the name
//! is absent or unbound.

pub mod event;
pub mod store;
