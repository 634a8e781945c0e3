//! Log levels and the colours their lines are printed in.
use vstd::prelude::*;

verus! {

/// Whether the process-wide logger came up.
pub struct Logger {
    pub is_init: bool,
}

/// A log level, for colouring.
#[derive(Debug, Clone, Copy, PartialEq, Eq, Structural)]
pub enum LogColor {
    TRACE,
    DEBUG,
    INFO,
    WARN,
    ERROR,
}

impl LogColor {
    pub open spec fn rgb(self) -> (u8, u8, u8) {
        match self {
            LogColor::TRACE => (145, 145, 145),
            LogColor::DEBUG => (255, 255, 255),
            LogColor::INFO => (0, 255, 47),
            LogColor::WARN => (232, 255, 0),
            LogColor::ERROR => (173, 70, 61),
        }
    }

    /// The level's colour, as red, green and blue.
    pub fn value(&self) -> (r: (u8, u8, u8))
        ensures
            r == self.rgb(),
    {
        match self {
            LogColor::TRACE => (145, 145, 145),
            LogColor::DEBUG => (255, 255, 255),
            LogColor::INFO => (0, 255, 47),
            LogColor::WARN => (232, 255, 0),
            LogColor::ERROR => (173, 70, 61),
        }
    }
}

} // verus!
