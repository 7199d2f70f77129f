use album_view::ctx::{CommonCtx, Ctx};
use album_view::data::{Album, AlbumLink, ArtistLink, Track};
use album_view::library::Library;
use album_view::menu::{album_ctx_menu, album_menu, Menu, MenuCommand, MenuEntry, MenuLabel};
use album_view::nav::Nav;
use std::sync::Arc;

fn artist(id: &str, name: &str) -> ArtistLink {
    ArtistLink { id: id.to_string(), name: name.to_string() }
}

fn album(id: &str, artists: Vec<ArtistLink>) -> Arc<Album> {
    Arc::new(Album {
        id: id.to_string(),
        name: "Blue".to_string(),
        url: format!("https://music.example/album/{id}"),
        label: "Reprise".to_string(),
        release: "June 22, 1971".to_string(),
        release_year: "1971".to_string(),
        images: vec![],
        artists,
        tracks: vec![Arc::new(Track {
            id: "T1".to_string(),
            name: "One".to_string(),
            number: 1,
            explicit: false,
            artists: Arc::new(vec![]),
            album: None,
        })],
    })
}

fn library_with(albums: &[&Arc<Album>]) -> Arc<Library> {
    let mut library = Library::new();
    for album in albums {
        library.save_album(album);
    }
    Arc::new(library)
}

fn save_entry(album: &Arc<Album>) -> MenuEntry {
    MenuEntry::Item { label: MenuLabel::SaveToLibrary, command: MenuCommand::SaveAlbum(album.clone()) }
}

fn remove_entry(album: &Arc<Album>) -> MenuEntry {
    MenuEntry::Item {
        label: MenuLabel::RemoveFromLibrary,
        command: MenuCommand::UnsaveAlbum(album.link()),
    }
}

fn copy_entry(album: &Arc<Album>) -> MenuEntry {
    MenuEntry::Item { label: MenuLabel::CopyLink, command: MenuCommand::Copy(album.url.clone()) }
}

#[test]
fn menu_of_an_unsaved_album_with_one_artist() {
    let album = album("A1", vec![artist("R1", "Joni")]);
    let menu = album_menu(&album, &library_with(&[]));
    assert_eq!(
        menu,
        Menu {
            entries: vec![
                MenuEntry::Item {
                    label: MenuLabel::ShowArtist,
                    command: MenuCommand::Navigate(Nav::ArtistDetail(artist("R1", "Joni"))),
                },
                copy_entry(&album),
                MenuEntry::Separator,
                save_entry(&album),
            ]
        }
    );
}

#[test]
fn menu_of_a_saved_album_with_two_artists() {
    let album = album("A1", vec![artist("R1", "Joni"), artist("R2", "Charles")]);
    let menu = album_menu(&album, &library_with(&[&album]));
    assert_eq!(
        menu.entries,
        vec![
            MenuEntry::Item {
                label: MenuLabel::ShowArtistNamed("Joni".to_string()),
                command: MenuCommand::Navigate(Nav::ArtistDetail(artist("R1", "Joni"))),
            },
            MenuEntry::Item {
                label: MenuLabel::ShowArtistNamed("Charles".to_string()),
                command: MenuCommand::Navigate(Nav::ArtistDetail(artist("R2", "Charles"))),
            },
            copy_entry(&album),
            MenuEntry::Separator,
            remove_entry(&album),
        ]
    );
}

#[test]
fn menu_of_an_album_without_artists() {
    let album = album("A1", vec![]);
    let menu = album_menu(&album, &library_with(&[]));
    assert_eq!(menu.entries, vec![copy_entry(&album), MenuEntry::Separator, save_entry(&album)]);
}

#[test]
fn menu_offers_saving_or_removing_but_never_both() {
    let album = album("A1", vec![artist("R1", "Joni"), artist("R2", "Charles")]);
    for library in [library_with(&[]), library_with(&[&album])] {
        let menu = album_menu(&album, &library);
        let saves = menu.entries.iter().filter(|entry| **entry == save_entry(&album)).count();
        let removes = menu.entries.iter().filter(|entry| **entry == remove_entry(&album)).count();
        assert_eq!(saves + removes, 1);
        assert_eq!(saves == 1, !library.contains_album(&album));
    }
}

#[test]
fn menu_looks_only_at_the_album_in_question() {
    let shown = album("A1", vec![artist("R1", "Joni")]);
    let other = album("A2", vec![artist("R1", "Joni")]);
    let menu = album_menu(&shown, &library_with(&[&other]));
    assert_eq!(menu.entries.last(), Some(&save_entry(&shown)));
}

#[test]
fn context_menu_reads_the_library_of_the_context() {
    let album = album("A1", vec![artist("R1", "Joni")]);
    let saved = Ctx {
        ctx: Arc::new(CommonCtx { library: library_with(&[&album]) }),
        data: album.clone(),
    };
    let unsaved = Ctx { ctx: Arc::new(CommonCtx { library: library_with(&[]) }), data: album.clone() };
    assert_eq!(album_ctx_menu(&saved).entries.last(), Some(&remove_entry(&album)));
    assert_eq!(album_ctx_menu(&unsaved).entries.last(), Some(&save_entry(&album)));
    assert_eq!(album_ctx_menu(&saved), album_menu(&album, &saved.ctx.library));
}

#[test]
fn label_keys() {
    assert_eq!(MenuLabel::ShowArtist.key(), "menu-item-show-artist");
    assert_eq!(MenuLabel::ShowArtistNamed("Joni".to_string()).key(), "menu-item-show-artist-name");
    assert_eq!(MenuLabel::CopyLink.key(), "menu-item-copy-link");
    assert_eq!(MenuLabel::RemoveFromLibrary.key(), "menu-item-remove-from-library");
    assert_eq!(MenuLabel::SaveToLibrary.key(), "menu-item-save-to-library");
}

#[test]
fn label_placeholders() {
    assert_eq!(MenuLabel::ShowArtist.placeholder(), "Go to Artist");
    assert_eq!(
        MenuLabel::ShowArtistNamed("Joni".to_string()).placeholder(),
        "Go to Artist \"Joni\""
    );
    assert_eq!(MenuLabel::ShowArtistNamed(String::new()).placeholder(), "Go to Artist \"\"");
    assert_eq!(MenuLabel::CopyLink.placeholder(), "Copy Link to Album");
    assert_eq!(MenuLabel::RemoveFromLibrary.placeholder(), "Remove Album from Library");
    assert_eq!(MenuLabel::SaveToLibrary.placeholder(), "Save Album to Library");
}

#[test]
fn click_on_an_album_leads_to_its_detail() {
    let album = album("A1", vec![artist("R1", "Joni")]);
    assert_eq!(
        Nav::album_detail(&album),
        Nav::AlbumDetail(AlbumLink { id: "A1".to_string(), name: "Blue".to_string() }, None)
    );
}

#[test]
fn link_of_an_album_holds_its_id_and_name() {
    let album = album("A1", vec![]);
    assert_eq!(album.link(), AlbumLink { id: "A1".to_string(), name: "Blue".to_string() });
    assert_ne!(album.link(), AlbumLink { id: "A2".to_string(), name: "Blue".to_string() });
    assert_ne!(album.link(), AlbumLink { id: "A1".to_string(), name: "Green".to_string() });
}
