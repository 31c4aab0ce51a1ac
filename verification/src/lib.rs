//! A small user-roster form, modelled and verified.
//!
//! The library holds the whole application logic of a desktop form: a
//! toggle button reveals a username/password form; submitting validates
//! that the two fields differ and, on success, appends the user to an
//! in-memory roster rendered with a masked password. The host GUI
//! runtime owns the event loop; it feeds [`state::Message`] values into
//! [`state::UserList::update`] and lays out the widget list returned by
//! [`state::UserList::render`].

pub mod laws;
pub mod render;
pub mod state;
