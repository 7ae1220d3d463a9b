//! Interactive host picker core: a verified input-mode state machine with
//! circular navigation, substring search filtering, a pure renderer that
//! turns session state into a sequence of draw operations, and a model of
//! the terminal setup/teardown lifecycle.

pub mod filter;
pub mod render;
pub mod session;
pub mod terminal;
