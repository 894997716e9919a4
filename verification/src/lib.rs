//! A verified composer core for outbound chat-webhook messages.
//!
//! The library models the editable form state of a webhook composer
//! ([`state::EditState`]), the discrete intents a user can issue against it
//! ([`intent::Intent`]), the reducer that applies an intent to the state
//! ([`reducer`]), the pure derivation of the request payload from a state
//! snapshot ([`payload`]), and the JSON request body posted to the webhook
//! URL ([`wire`]). The laws the core obeys are stated and proved in
//! [`laws`]. The network transport and the widget layer are external
//! collaborators and are not part of this crate.

pub mod intent;
pub mod laws;
pub mod payload;
pub mod reducer;
pub mod state;
pub mod wire;
