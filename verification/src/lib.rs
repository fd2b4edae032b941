//! Cross-thread message relay and media-session watcher core.
//!
//! The crate models and verifies the two pieces that make a "watch the
//! system media session" tool correct: a controller that relays messages to
//! a set of worker threads and coordinates their shutdown, and a manager
//! that keeps exactly one live set of event subscriptions bound to whichever
//! media session is currently active, rebinding whenever the session
//! changes. Platform calls, real threads and real channels live outside this
//! crate; here every worker, channel and platform interaction is represented
//! by its observable state, so the relay and subscription bookkeeping can be
//! proved correct for every schedule of incoming messages.

/// Thread lifecycle control and the message relay.
pub mod controller;
/// The media-session watcher and its platform boundary.
pub mod media;
