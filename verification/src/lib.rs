//! The album screen of a music-browsing client, without its widgets: the
//! slot that holds a remote album while it loads, the enumeration of an
//! album's tracks for playback, and the album's context menu.

pub mod cached;
pub mod ctx;
pub mod data;
pub mod detail;
pub mod library;
pub mod menu;
pub mod nav;
pub mod playable;
pub mod promise;
