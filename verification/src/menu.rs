//! The context menu of an album.
//!
//! The menu is derived from the album and from the library anew whenever it
//! is opened. It holds one entry for each artist, an entry that copies the
//! album's link, and after a separator one entry that either saves the album
//! or removes it, never both.

use crate::ctx::WithCtx;
use crate::data::{Album, AlbumLink, ArtistLink};
use crate::library::Library;
use crate::nav::Nav;
use std::sync::Arc;
use vstd::prelude::*;
use vstd::string::StringExecFns;

verus! {

/// What an entry says. The text is looked up under a key, and shown as the
/// placeholder where the lookup finds nothing.
#[derive(Debug, PartialEq, Eq)]
pub enum MenuLabel {
    ShowArtist,
    ShowArtistNamed(String),
    CopyLink,
    RemoveFromLibrary,
    SaveToLibrary,
}

/// What choosing an entry does.
#[derive(Debug, PartialEq, Eq)]
pub enum MenuCommand {
    Navigate(Nav),
    Copy(String),
    SaveAlbum(Arc<Album>),
    UnsaveAlbum(AlbumLink),
}

/// One line of a menu.
#[derive(Debug, PartialEq, Eq)]
pub enum MenuEntry {
    Item { label: MenuLabel, command: MenuCommand },
    Separator,
}

/// A menu: its lines from top to bottom.
#[derive(Debug, PartialEq, Eq)]
pub struct Menu {
    pub entries: Vec<MenuEntry>,
}

impl MenuLabel {
    /// The key under which the text of the label is looked up.
    pub open spec fn spec_key(self) -> Seq<char> {
        match self {
            MenuLabel::ShowArtist => "menu-item-show-artist"@,
            MenuLabel::ShowArtistNamed(_) => "menu-item-show-artist-name"@,
            MenuLabel::CopyLink => "menu-item-copy-link"@,
            MenuLabel::RemoveFromLibrary => "menu-item-remove-from-library"@,
            MenuLabel::SaveToLibrary => "menu-item-save-to-library"@,
        }
    }

    /// The text shown where the lookup finds nothing.
    pub open spec fn spec_placeholder(self) -> Seq<char> {
        match self {
            MenuLabel::ShowArtist => "Go to Artist"@,
            MenuLabel::ShowArtistNamed(name) => "Go to Artist \""@ + name@ + "\""@,
            MenuLabel::CopyLink => "Copy Link to Album"@,
            MenuLabel::RemoveFromLibrary => "Remove Album from Library"@,
            MenuLabel::SaveToLibrary => "Save Album to Library"@,
        }
    }

    /// The key under which the text of the label is looked up.
    pub fn key(&self) -> (key: &'static str)
        ensures
            key@ == self.spec_key(),
    {
        match self {
            MenuLabel::ShowArtist => "menu-item-show-artist",
            MenuLabel::ShowArtistNamed(_) => "menu-item-show-artist-name",
            MenuLabel::CopyLink => "menu-item-copy-link",
            MenuLabel::RemoveFromLibrary => "menu-item-remove-from-library",
            MenuLabel::SaveToLibrary => "menu-item-save-to-library",
        }
    }

    /// The text shown where the lookup finds nothing.
    pub fn placeholder(&self) -> (text: String)
        ensures
            text@ == self.spec_placeholder(),
    {
        match self {
            MenuLabel::ShowArtist => String::from_str("Go to Artist"),
            MenuLabel::ShowArtistNamed(name) => {
                let mut text = String::from_str("Go to Artist \"");
                text.append(name.as_str());
                text.append("\"");
                text
            },
            MenuLabel::CopyLink => String::from_str("Copy Link to Album"),
            MenuLabel::RemoveFromLibrary => String::from_str("Remove Album from Library"),
            MenuLabel::SaveToLibrary => String::from_str("Save Album to Library"),
        }
    }
}

/// The entry that leads to `artist`. It names the artist only where the album
/// has several.
pub open spec fn artist_entry(artist: ArtistLink, several: bool) -> MenuEntry {
    MenuEntry::Item {
        label: if several {
            MenuLabel::ShowArtistNamed(artist.name)
        } else {
            MenuLabel::ShowArtist
        },
        command: MenuCommand::Navigate(Nav::ArtistDetail(artist)),
    }
}

/// The entry that saves `album`, or the one that removes it if it is `saved`.
pub open spec fn library_entry(album: Arc<Album>, saved: bool) -> MenuEntry {
    if saved {
        MenuEntry::Item {
            label: MenuLabel::RemoveFromLibrary,
            command: MenuCommand::UnsaveAlbum(album.spec_link()),
        }
    } else {
        MenuEntry::Item { label: MenuLabel::SaveToLibrary, command: MenuCommand::SaveAlbum(album) }
    }
}

/// The lines of the context menu of `album`, which is `saved` or not.
pub open spec fn album_menu_entries(album: Arc<Album>, saved: bool) -> Seq<MenuEntry> {
    Seq::new(
        album.artists@.len(),
        |i: int| artist_entry(album.artists@[i], album.artists@.len() > 1),
    ) + seq![
        MenuEntry::Item { label: MenuLabel::CopyLink, command: MenuCommand::Copy(album.url) },
        MenuEntry::Separator,
        library_entry(album, saved),
    ]
}

/// The context menu of `album`, given what `library` holds.
pub fn album_menu(album: &Arc<Album>, library: &Arc<Library>) -> (menu: Menu)
    ensures
        menu.entries@ == album_menu_entries(*album, library@.contains(album.id@)),
{
    let mut entries: Vec<MenuEntry> = Vec::new();
    let several = album.artists.len() > 1;
    let mut i: usize = 0;
    while i < album.artists.len()
        invariant
            i <= album.artists.len(),
            several == (album.artists@.len() > 1),
            entries.len() == i,
            forall|j: int|
                0 <= j < i ==> #[trigger] entries[j] == artist_entry(album.artists@[j], several),
        decreases album.artists.len() - i,
    {
        let artist = &album.artists[i];
        let label = if several {
            MenuLabel::ShowArtistNamed(artist.name.clone())
        } else {
            MenuLabel::ShowArtist
        };
        entries.push(
            MenuEntry::Item {
                label,
                command: MenuCommand::Navigate(Nav::ArtistDetail(artist.clone())),
            },
        );
        i += 1;
    }
    entries.push(
        MenuEntry::Item { label: MenuLabel::CopyLink, command: MenuCommand::Copy(album.url.clone()) },
    );
    entries.push(MenuEntry::Separator);
    if library.contains_album(album) {
        entries.push(
            MenuEntry::Item {
                label: MenuLabel::RemoveFromLibrary,
                command: MenuCommand::UnsaveAlbum(album.link()),
            },
        );
    } else {
        entries.push(
            MenuEntry::Item {
                label: MenuLabel::SaveToLibrary,
                command: MenuCommand::SaveAlbum(album.clone()),
            },
        );
    }
    assert(entries@ =~= album_menu_entries(*album, library@.contains(album.id@)));
    Menu { entries }
}

/// The context menu of an album shown in the shared context, whose library
/// decides between saving and removing.
pub fn album_ctx_menu(album: &WithCtx<Arc<Album>>) -> (menu: Menu)
    ensures
        menu.entries@ == album_menu_entries(
            album.data,
            album.ctx.library@.contains(album.data.id@),
        ),
{
    album_menu(&album.data, &album.ctx.library)
}

/// A menu offers exactly one of saving and removing, as its last entry, and
/// which one depends only on whether the album is saved.
pub proof fn law_save_or_remove(album: Arc<Album>, saved: bool)
    ensures
        album_menu_entries(album, saved).len() == album.artists@.len() + 3,
        album_menu_entries(album, saved).last() == library_entry(album, saved),
        forall|i: int|
            0 <= i < album_menu_entries(album, saved).len() - 1 ==> {
                let entry = #[trigger] album_menu_entries(album, saved)[i];
                !(entry matches MenuEntry::Item { label: MenuLabel::SaveToLibrary, .. })
                    && !(entry matches MenuEntry::Item { label: MenuLabel::RemoveFromLibrary, .. })
            },
{
}

/// Saving an album that was not saved and removing it again brings back the
/// menu that offers to save it; removing a saved album and saving it again
/// brings back the menu that offers to remove it.
pub proof fn law_menu_follows_round_trip(album: Arc<Album>, saved: Set<Seq<char>>)
    ensures
        album_menu_entries(album, saved.insert(album.id@).remove(album.id@).contains(album.id@))
            == album_menu_entries(album, false),
        album_menu_entries(album, saved.remove(album.id@).insert(album.id@).contains(album.id@))
            == album_menu_entries(album, true),
{
}

} // verus!
