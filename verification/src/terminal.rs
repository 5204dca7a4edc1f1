//! Terminal-facing helpers: the log-level policy and message shaping of the
//! logger, and the question/answer logic of the interactive prompt. Painting
//! to the terminal and reading keys stay with the caller.

pub mod logger;
pub mod question;
