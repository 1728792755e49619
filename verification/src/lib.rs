//! The verified core of the Impactor desktop app: accent colours and their
//! text form, and the state machines of the settings and package screens.
pub mod accent;
pub mod accounts;
pub mod package;
pub mod settings;
pub mod text;
