//! The albums that the user has saved.

use crate::data::{Album, AlbumLink};
use vstd::prelude::*;

verus! {

/// The user's saved albums, known by their ids.
#[derive(Debug)]
pub struct Library {
    albums: Vec<String>,
}

impl View for Library {
    type V = Set<Seq<char>>;

    /// The ids of the saved albums.
    closed spec fn view(&self) -> Set<Seq<char>> {
        Set::new(|id: Seq<char>| exists|i: int| 0 <= i < self.albums.len() && self.albums[i]@ == id)
    }
}

impl Clone for Library {
    fn clone(&self) -> (copy: Self)
        ensures
            copy@ == self@,
    {
        let copy = Library { albums: self.albums.clone() };
        assert(copy.albums@ =~= self.albums@);
        copy
    }
}

impl Library {
    /// A library without albums.
    pub fn new() -> (library: Self)
        ensures
            library@ == Set::<Seq<char>>::empty(),
    {
        let library = Library { albums: Vec::new() };
        assert(library@ =~= Set::<Seq<char>>::empty());
        library
    }

    /// Whether an album of this id is saved.
    pub fn contains(&self, id: &String) -> (saved: bool)
        ensures
            saved == self@.contains(id@),
    {
        let mut i: usize = 0;
        while i < self.albums.len()
            invariant
                i <= self.albums.len(),
                forall|j: int| 0 <= j < i ==> self.albums[j]@ != id@,
            decreases self.albums.len() - i,
        {
            if self.albums[i] == *id {
                return true;
            }
            i += 1;
        }
        false
    }

    /// Whether `album` is saved.
    pub fn contains_album(&self, album: &Album) -> (saved: bool)
        ensures
            saved == self@.contains(album.id@),
    {
        self.contains(&album.id)
    }

    /// Saves `album`. Saving a saved album changes nothing.
    pub fn save_album(&mut self, album: &Album)
        ensures
            final(self)@ == old(self)@.insert(album.id@),
    {
        if !self.contains(&album.id) {
            self.albums.push(album.id.clone());
            assert forall|id: Seq<char>| final(self)@.contains(id) == old(self)@.insert(
                album.id@,
            ).contains(id) by {
                if old(self)@.contains(id) {
                    let i = choose|i: int| 0 <= i < old(self).albums.len() && old(self).albums[i]@ == id;
                    assert(self.albums[i]@ == id);
                }
                if id == album.id@ {
                    assert(self.albums[self.albums.len() - 1]@ == id);
                }
            }
        }
        assert(final(self)@ =~= old(self)@.insert(album.id@));
    }

    /// Removes the album that `link` names. Removing an album that is not
    /// saved changes nothing.
    pub fn unsave_album(&mut self, link: &AlbumLink)
        ensures
            final(self)@ == old(self)@.remove(link.id@),
    {
        let mut kept: Vec<String> = Vec::new();
        let mut i: usize = 0;
        while i < self.albums.len()
            invariant
                i <= self.albums.len(),
                forall|k: int| 0 <= k < kept.len() ==> (#[trigger] kept[k])@ != link.id@,
                forall|k: int|
                    0 <= k < kept.len() ==> exists|j: int|
                        0 <= j < i && self.albums[j]@ == (#[trigger] kept[k])@,
                forall|j: int|
                    0 <= j < i && (#[trigger] self.albums[j])@ != link.id@ ==> exists|k: int|
                        0 <= k < kept.len() && kept[k]@ == self.albums[j]@,
            decreases self.albums.len() - i,
        {
            if self.albums[i] != link.id {
                let ghost before = kept@;
                kept.push(self.albums[i].clone());
                assert(forall|k: int| 0 <= k < before.len() ==> kept[k] == before[k]);
                assert(kept[kept.len() - 1]@ == self.albums[i as int]@);
            }
            i += 1;
        }
        let ghost before = *self;
        self.albums = kept;
        assert(final(self)@ =~= before@.remove(link.id@));
    }

    /// Saving an album that was not saved and removing it again leaves the
    /// library as it was, and so does removing a saved album and saving it
    /// again. In either case the album is saved afterwards exactly if it was
    /// saved before.
    pub proof fn law_save_and_unsave_round_trip(saved: Set<Seq<char>>, id: Seq<char>)
        ensures
            !saved.contains(id) ==> saved.insert(id).remove(id) == saved,
            saved.contains(id) ==> saved.remove(id).insert(id) == saved,
            saved.insert(id).remove(id).contains(id) == false,
            saved.remove(id).insert(id).contains(id) == true,
    {
        if !saved.contains(id) {
            assert(saved.insert(id).remove(id) =~= saved);
        } else {
            assert(saved.remove(id).insert(id) =~= saved);
        }
    }
}

} // verus!
