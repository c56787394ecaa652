//! Menu logic of an interactive controller for TP-Link smart devices: reading
//! the user's answers, choosing a device and an action, and deciding which
//! command each device model is sent.

pub mod command;
pub mod session;
pub mod text;
