//! The logging interface.

use vstd::prelude::*;

verus! {

/// A sink for the client's log lines, one method per level.
pub trait Logger: Send + Sync {
    fn debug(&self, message: &str);
    fn info(&self, message: &str);
    fn warn(&self, message: &str);
    fn error(&self, message: &str);
}

} // verus!
