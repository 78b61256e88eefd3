//! Controller for a terminal front end to a version-control repository.
//!
//! The controller holds what the screen shows: the commit history and the
//! status of the working tree, a cursor in each, the diff of the selected
//! item, the mode, and the draft of a commit message. It is driven by key
//! presses, by the replies of the repository, and by the notice that a push
//! sends when it has ended.
//!
//! The controller itself reads no repository and draws nothing. A step that
//! needs the repository leaves a request in [`app::App::pending`]; the host
//! carries the request out and hands the reply to
//! [`app::App::handle_reply`], until no request is left. Only then is the
//! state complete, and only then are keys taken.
//!
//! Every step is specified as a function on mathematical states in
//! [`model`]; [`laws`] holds what is proved of those functions.

pub mod app;
pub mod backend;
pub mod git;
pub mod input;
pub mod keys;
pub mod laws;
pub mod model;
pub mod selection;
pub mod types;
pub mod ui;
