use vstd::prelude::*;
use vstd::string::*;

verus! {

/// Severity of a notification handed to the user.
#[derive(Clone, Copy, Debug, PartialEq, Eq, Structural)]
pub enum Level {
    Success,
    Error,
    Warn,
    Info,
}

/// One notification: a severity and its message.
#[derive(Debug)]
pub struct Notice {
    pub level: Level,
    pub message: String,
}

impl View for Notice {
    type V = (Level, Seq<char>);

    open spec fn view(&self) -> (Level, Seq<char>) {
        (self.level, self.message@)
    }
}

impl Notice {
    pub fn new(level: Level, message: String) -> (r: Notice)
        ensures
            r@ == (level, message@),
    {
        Notice { level, message }
    }
}

/// A success notice.
pub fn success(message: &str) -> (r: Notice)
    ensures
        r@ == (Level::Success, message@),
{
    Notice::new(Level::Success, String::from_str(message))
}

/// An error notice.
pub fn error(message: &str) -> (r: Notice)
    ensures
        r@ == (Level::Error, message@),
{
    Notice::new(Level::Error, String::from_str(message))
}

/// A warning notice.
pub fn warn(message: &str) -> (r: Notice)
    ensures
        r@ == (Level::Warn, message@),
{
    Notice::new(Level::Warn, String::from_str(message))
}

/// An informational notice.
pub fn info(message: &str) -> (r: Notice)
    ensures
        r@ == (Level::Info, message@),
{
    Notice::new(Level::Info, String::from_str(message))
}

impl Level {
    /// Whether notices of this severity go to the error stream.
    pub fn to_error_stream(&self) -> (r: bool)
        ensures
            r == (*self == Level::Error || *self == Level::Warn),
    {
        match self {
            Level::Error | Level::Warn => true,
            _ => false,
        }
    }
}

} // verus!
