//! The detail screen of an album, as the commands that reach it drive it.
//!
//! A request to load an album makes the screen wait and asks for a fetch. The
//! fetch runs elsewhere and its outcome comes back as a second command, so
//! that the state changes only here, one command after the other. An outcome
//! that belongs to an earlier request than the latest is dropped.

use crate::cached::Cached;
use crate::data::{album_links_compare_by_view, Album, AlbumLink, Error};
use crate::promise::{Promise, Shown};
use std::sync::Arc;
use vstd::prelude::*;

verus! {

/// The tag of the command that asks for an album's detail to be loaded.
pub const LOAD_DETAIL: &'static str = "app.album.load-detail";

/// The album as the service delivers it.
pub type Loaded = Cached<Arc<Album>>;

/// The slot that the detail screen keeps its album in.
pub type AlbumSlot = Promise<Loaded, AlbumLink, Error>;

/// The state of the detail screen.
#[derive(Debug, PartialEq, Eq)]
pub struct AlbumDetail {
    pub album: AlbumSlot,
}

/// A command that reaches the detail screen.
#[derive(Debug, PartialEq, Eq)]
pub enum DetailCommand {
    /// Load the album that the link names.
    Load(AlbumLink),
    /// The fetch for the request named by the link has ended with this
    /// outcome.
    Loaded(AlbumLink, Result<Loaded, Error>),
}

/// What is to be done after a command was handled.
#[derive(Debug, PartialEq, Eq)]
pub enum DetailEffect {
    /// The screen waits now. Fetch the album by the id of the link, without
    /// holding up the screen, and send the outcome back with the link.
    Fetch(AlbumLink),
    /// The outcome was taken: draw the screen again.
    Render,
    /// The outcome was out of date and the screen is as it was.
    Nothing,
}

impl Clone for AlbumDetail {
    fn clone(&self) -> (copy: Self)
        ensures
            copy == *self,
    {
        let album = match &self.album {
            Promise::Empty => Promise::Empty,
            Promise::Pending { token } => Promise::Pending { token: token.clone() },
            Promise::Resolved { token, value } => Promise::Resolved {
                token: token.clone(),
                value: Cached { data: value.data.clone(), stale: value.stale },
            },
            Promise::Rejected { token, error } => Promise::Rejected {
                token: token.clone(),
                error: *error,
            },
        };
        AlbumDetail { album }
    }
}

impl AlbumDetail {
    /// The effect of `command` on a screen whose slot is `slot`.
    pub open spec fn effect(slot: AlbumSlot, command: DetailCommand) -> DetailEffect {
        match command {
            DetailCommand::Load(link) => DetailEffect::Fetch(link),
            DetailCommand::Loaded(link, _) => if slot.awaits(link) {
                DetailEffect::Render
            } else {
                DetailEffect::Nothing
            },
        }
    }

    /// The slot of a screen after `command`, if it was `slot` before.
    pub open spec fn next(slot: AlbumSlot, command: DetailCommand) -> AlbumSlot {
        match command {
            DetailCommand::Load(link) => AlbumSlot::deferred(link),
            DetailCommand::Loaded(link, result) => slot.updated(link, result),
        }
    }

    /// A screen for which nothing was requested yet.
    pub fn new() -> (detail: Self)
        ensures
            detail.album == AlbumSlot::Empty,
    {
        AlbumDetail { album: Promise::new() }
    }

    /// Handles one command: changes the state and says what is to be done.
    pub fn on_command(&mut self, command: DetailCommand) -> (effect: DetailEffect)
        ensures
            final(self).album == Self::next(old(self).album, command),
            effect == Self::effect(old(self).album, command),
    {
        match command {
            DetailCommand::Load(link) => {
                self.album.defer(link.clone());
                DetailEffect::Fetch(link)
            },
            DetailCommand::Loaded(link, result) => {
                proof {
                    album_links_compare_by_view();
                }
                if self.album.update(link, result) {
                    DetailEffect::Render
                } else {
                    DetailEffect::Nothing
                }
            },
        }
    }

    /// What the screen shows: nothing before the first request, then the
    /// view for a running request, for a loaded album or for a failure.
    pub fn shown(&self) -> (shown: Shown<'_, Loaded, AlbumLink, Error>)
        ensures
            match self.album {
                Promise::Empty => shown == Shown::<Loaded, AlbumLink, Error>::Nothing,
                Promise::Pending { token } => shown == Shown::<Loaded, AlbumLink, Error>::Pending(
                    &token,
                ),
                Promise::Resolved { value, .. } => shown == Shown::<
                    Loaded,
                    AlbumLink,
                    Error,
                >::Resolved(&value),
                Promise::Rejected { error, .. } => shown == Shown::<
                    Loaded,
                    AlbumLink,
                    Error,
                >::Rejected(&error),
            },
    {
        self.album.shown()
    }

    /// After two requests in a row only the outcome of the second is taken,
    /// in whichever order the two outcomes arrive.
    pub proof fn law_latest_request_wins(
        slot: AlbumSlot,
        first: AlbumLink,
        second: AlbumLink,
        late: Result<Loaded, Error>,
        current: Result<Loaded, Error>,
    )
        requires
            first@ != second@,
        ensures
            ({
                let waiting = Self::next(
                    Self::next(slot, DetailCommand::Load(first)),
                    DetailCommand::Load(second),
                );
                let taken = Self::next(waiting, DetailCommand::Loaded(second, current));
                &&& Self::next(waiting, DetailCommand::Loaded(first, late)) == waiting
                &&& Self::effect(waiting, DetailCommand::Loaded(first, late))
                    == DetailEffect::Nothing
                &&& Self::effect(waiting, DetailCommand::Loaded(second, current))
                    == DetailEffect::Render
                &&& taken == AlbumSlot::deferred(second).updated(second, current)
                &&& Self::next(taken, DetailCommand::Loaded(first, late)) == taken
                &&& Self::next(
                    Self::next(waiting, DetailCommand::Loaded(first, late)),
                    DetailCommand::Loaded(second, current),
                ) == taken
            }),
    {
    }
}

} // verus!
