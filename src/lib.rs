//! Decision logic of a borderless native window: hit-testing for custom
//! chrome, key-code mapping, window-procedure dispatch and the message-loop
//! exit rule, each stated as a contract and proved.

pub mod utils;
pub mod input;
pub mod region;
pub mod render;
pub mod platform;
pub mod window;
