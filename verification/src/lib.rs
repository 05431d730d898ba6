//! Request editing and session state for a terminal HTTP client.
//!
//! The crate holds the logic of the client: text editing, the header table,
//! HTTP methods and requests, the history of sent requests, and the state
//! machine that reacts to the user's actions. Terminal drawing, key reading,
//! network transfer and history storage happen in the surrounding program,
//! which hands plain values to this crate and gets plain values back.

pub mod action;
pub mod text;
pub mod editor;
pub mod error;
pub mod request;
pub mod response;
pub mod history;
pub mod app;
pub mod events;
pub mod client;
pub mod input;
pub mod view;
