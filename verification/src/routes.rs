//! What each route decides.
//!
//! A handler parses its input, may validate it, asks the upstream API for
//! something, and answers with a view, a redirect or an error. The asking
//! is done by the program around this library, so each handler is cut at
//! its upstream calls: one function says what to send, the next takes what
//! came back and says what follows. For the users routes, which may take
//! several calls, [`users::flow`] strings these functions together and
//! names each call in its turn.
//!
//! Reads degrade: a listing whose upstream call failed is shown with no
//! rows. Writes do not: a failed write is always told to the user.

pub mod applications;
pub mod connections;
pub mod logs;
pub mod root;
pub mod users;
