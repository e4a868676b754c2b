pub mod action;
pub mod bot;
pub mod guard;
pub mod panel;
