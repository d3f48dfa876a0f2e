//! Device drivers: the LED, the pin multiplexer and the mailbox.
pub mod led;
pub mod pinmux;
pub mod mailbox;
pub mod cmdq;
