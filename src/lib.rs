//! The local half of a clipboard-synchronisation agent: a watcher of the
//! compositor's selection that emits each new text once, with the pieces
//! around it (registry discovery, the dispatch iteration, the polling
//! readers, the tray's history and a tick scheduler).
use vstd::prelude::*;

pub mod buffer;
pub mod cycle;
pub mod dedup;
pub mod discovery;
pub mod dispatch;
pub mod history;
pub mod reader;
pub mod text;
pub mod timer;
pub mod watcher;

verus! {

} // verus!
