//! Where the user can go from an album.

use crate::data::{Album, AlbumLink, ArtistLink};
use vstd::prelude::*;

verus! {

/// A destination of the navigation.
#[derive(Debug, PartialEq, Eq)]
pub enum Nav {
    /// The detail screen of an album, and the track to bring into view there,
    /// if any.
    AlbumDetail(AlbumLink, Option<String>),
    /// The detail screen of an artist.
    ArtistDetail(ArtistLink),
}

impl Nav {
    /// Where a click on `album` leads: to its detail screen, with no track
    /// singled out.
    pub fn album_detail(album: &Album) -> (nav: Nav)
        ensures
            nav == Nav::AlbumDetail(album.spec_link(), None),
    {
        Nav::AlbumDetail(album.link(), None)
    }
}

} // verus!
