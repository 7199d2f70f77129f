//! The entities that the album screen shows.

use std::sync::Arc;
use vstd::laws_eq::obeys_view_eq;
use vstd::prelude::*;
use vstd::std_specs::cmp::PartialEqSpecImpl;

verus! {

/// Why a fetch failed.
#[derive(Clone, Copy, Debug, PartialEq, Eq, Structural)]
pub enum Error {
    NotFound,
    Transport,
    Decode,
}

/// A reference to an artist: enough to name them and to navigate to them.
#[derive(Debug, PartialEq, Eq)]
pub struct ArtistLink {
    pub id: String,
    pub name: String,
}

impl Clone for ArtistLink {
    fn clone(&self) -> (copy: Self)
        ensures
            copy == *self,
    {
        ArtistLink { id: self.id.clone(), name: self.name.clone() }
    }
}

/// A reference to an album. It is the key under which an album is requested,
/// and two links denote the same request when their texts are the same.
#[derive(Debug)]
pub struct AlbumLink {
    pub id: String,
    pub name: String,
}

/// What two album links are compared by.
pub struct AlbumLinkView {
    pub id: Seq<char>,
    pub name: Seq<char>,
}

impl View for AlbumLink {
    type V = AlbumLinkView;

    open spec fn view(&self) -> AlbumLinkView {
        AlbumLinkView { id: self.id@, name: self.name@ }
    }
}

impl Clone for AlbumLink {
    fn clone(&self) -> (copy: Self)
        ensures
            copy == *self,
    {
        AlbumLink { id: self.id.clone(), name: self.name.clone() }
    }
}

impl PartialEq for AlbumLink {
    fn eq(&self, other: &Self) -> (same: bool) {
        self.id == other.id && self.name == other.name
    }
}

impl Eq for AlbumLink {}

impl PartialEqSpecImpl for AlbumLink {
    open spec fn obeys_eq_spec() -> bool {
        true
    }

    open spec fn eq_spec(&self, other: &Self) -> bool {
        self.id@ == other.id@ && self.name@ == other.name@
    }
}

/// `==` on album links compares their texts.
pub proof fn album_links_compare_by_view()
    ensures
        obeys_view_eq::<AlbumLink>(),
{
    reveal(obeys_view_eq);
}

/// A picture of an album's cover in one size, in pixels.
#[derive(Debug, PartialEq, Eq)]
pub struct Image {
    pub url: String,
    pub width: usize,
    pub height: usize,
}

/// A track. Inside an enumeration it carries the album it was reached from.
#[derive(Debug, PartialEq, Eq)]
pub struct Track {
    pub id: String,
    pub name: String,
    pub number: usize,
    pub explicit: bool,
    pub artists: Arc<Vec<ArtistLink>>,
    pub album: Option<AlbumLink>,
}

impl Clone for Track {
    fn clone(&self) -> (copy: Self)
        ensures
            copy == *self,
    {
        let album = match &self.album {
            Some(link) => Some(link.clone()),
            None => None,
        };
        Track {
            id: self.id.clone(),
            name: self.name.clone(),
            number: self.number,
            explicit: self.explicit,
            artists: self.artists.clone(),
            album,
        }
    }
}

/// An episode of a show.
#[derive(Debug, PartialEq, Eq)]
pub struct Episode {
    pub id: String,
    pub name: String,
}

impl Clone for Episode {
    fn clone(&self) -> (copy: Self)
        ensures
            copy == *self,
    {
        Episode { id: self.id.clone(), name: self.name.clone() }
    }
}

/// An album with its tracks in their natural order.
#[derive(Debug, PartialEq, Eq)]
pub struct Album {
    pub id: String,
    pub name: String,
    pub url: String,
    pub label: String,
    pub release: String,
    pub release_year: String,
    pub images: Vec<Image>,
    pub artists: Vec<ArtistLink>,
    pub tracks: Vec<Arc<Track>>,
}

impl Track {
    /// This track as reached from `album`.
    pub open spec fn in_album(self, album: AlbumLink) -> Track {
        Track {
            id: self.id,
            name: self.name,
            number: self.number,
            explicit: self.explicit,
            artists: self.artists,
            album: Some(album),
        }
    }

    /// A copy of the track that names `album` as the album it was reached from.
    pub fn with_album(&self, album: AlbumLink) -> (track: Track)
        ensures
            track == self.in_album(album),
    {
        Track {
            id: self.id.clone(),
            name: self.name.clone(),
            number: self.number,
            explicit: self.explicit,
            artists: self.artists.clone(),
            album: Some(album),
        }
    }
}

impl Album {
    /// The link that stands for this album.
    pub open spec fn spec_link(self) -> AlbumLink {
        AlbumLink { id: self.id, name: self.name }
    }

    /// The link that stands for this album.
    pub fn link(&self) -> (link: AlbumLink)
        ensures
            link == self.spec_link(),
    {
        AlbumLink { id: self.id.clone(), name: self.name.clone() }
    }

    /// Whether any track of the album is marked explicit.
    pub fn has_explicit(&self) -> (explicit: bool)
        ensures
            explicit <==> exists|i: int| 0 <= i < self.tracks.len() && self.tracks[i].explicit,
    {
        let mut i: usize = 0;
        while i < self.tracks.len()
            invariant
                i <= self.tracks.len(),
                forall|j: int| 0 <= j < i ==> !self.tracks[j].explicit,
            decreases self.tracks.len() - i,
        {
            if self.tracks[i].explicit {
                return true;
            }
            i += 1;
        }
        false
    }

    /// The album's tracks in their natural order, each naming this album as
    /// the one it was reached from.
    pub open spec fn spec_tracks_with_context(self) -> Seq<Track> {
        Seq::new(self.tracks@.len(), |i: int| (*self.tracks@[i]).in_album(self.spec_link()))
    }

    /// The album's tracks in their natural order, each naming this album as
    /// the one it was reached from.
    pub fn tracks_with_context(&self) -> (tracks: Vec<Track>)
        ensures
            tracks@ == self.spec_tracks_with_context(),
    {
        let mut tracks: Vec<Track> = Vec::new();
        let mut i: usize = 0;
        while i < self.tracks.len()
            invariant
                i <= self.tracks.len(),
                tracks.len() == i,
                forall|j: int| 0 <= j < i ==> tracks[j] == self.spec_tracks_with_context()[j],
            decreases self.tracks.len() - i,
        {
            tracks.push(self.tracks[i].with_album(self.link()));
            i += 1;
        }
        tracks
    }
}

} // verus!
