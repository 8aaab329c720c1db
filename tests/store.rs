use spot::details_model::DetailsModel;
use spot::models::{AlbumDescription, AlbumRef, ListDiff, PlaylistDescription, SongDescription, UserRef};
use spot::playlist_details_model::PlaylistDetailsModel;
use spot::state::{
    AppAction, AppEvent, AppState, BrowserAction, BrowserEvent, BrowserState, PlaybackAction,
    PlaybackState, PlaylistSource, SelectionAction, SelectionState,
};
use spot::store::{BorrowError, BorrowFlag, BATCH_SIZE};

fn song(id: &str) -> SongDescription {
    SongDescription {
        id: id.to_string(),
        title: id.to_string(),
        artists: vec![],
        album: AlbumRef { id: "alb".to_string(), name: "Alb".to_string() },
    }
}

fn songs_n(prefix: &str, n: usize) -> Vec<SongDescription> {
    (0..n).map(|i| song(&format!("{}{}", prefix, i))).collect()
}

fn empty_state() -> AppState {
    AppState {
        browser: BrowserState { albums: vec![], playlists: vec![] },
        playback: PlaybackState { source: None, current_song_id: None },
        selection: SelectionState::new(),
    }
}

fn album(id: &str, liked: bool) -> AlbumDescription {
    AlbumDescription {
        id: id.to_string(),
        title: "T".to_string(),
        artists: vec![],
        songs: vec![song("A"), song("B"), song("C")],
        is_liked: liked,
    }
}

#[test]
fn set_album_details_emits_loaded_event_and_diff() {
    let mut state = empty_state();
    let events = state.apply(AppAction::Browser(BrowserAction::SetAlbumDetails(album("album:42", false))));
    assert_eq!(
        events,
        vec![AppEvent::BrowserEvent(BrowserEvent::AlbumDetailsLoaded("album:42".to_string()))]
    );
    let model = DetailsModel::new("album:42".to_string());
    match model.diff_for_event(&state, &events[0]) {
        Some(ListDiff::Replace(rows)) => {
            let got: Vec<(usize, String)> = rows.iter().map(|r| (r.index, r.song.id.clone())).collect();
            assert_eq!(got, vec![(0, "A".to_string()), (1, "B".to_string()), (2, "C".to_string())]);
        }
        other => panic!("unexpected diff {:?}", other),
    }
    let again = state.apply(AppAction::Browser(BrowserAction::SetAlbumDetails(album("album:42", true))));
    assert_eq!(again.len(), 1);
    assert_eq!(state.browser.albums.len(), 1);
    assert!(state.browser.albums[0].content.as_ref().unwrap().is_liked);
}

#[test]
fn save_and_unsave_album() {
    let mut state = empty_state();
    state.apply(AppAction::Browser(BrowserAction::SaveAlbum(album("a1", true))));
    let events = state.apply(AppAction::Browser(BrowserAction::UnsaveAlbum("a1".to_string())));
    assert_eq!(events, vec![AppEvent::BrowserEvent(BrowserEvent::AlbumUnsaved("a1".to_string()))]);
    assert!(!state.browser.albums[0].content.as_ref().unwrap().is_liked);
    let none = state.apply(AppAction::Browser(BrowserAction::UnsaveAlbum("zz".to_string())));
    assert_eq!(none.len(), 1);
    assert_eq!(state.browser.albums.len(), 1);
}

#[test]
fn playlist_pages_append_and_move_cursor() {
    let mut state = empty_state();
    let p = PlaylistDescription {
        id: "pl".to_string(),
        title: "P".to_string(),
        owner: UserRef { id: "u".to_string(), display_name: "U".to_string() },
        songs: songs_n("a", BATCH_SIZE),
    };
    state.apply(AppAction::Browser(BrowserAction::SetPlaylistDetails(p)));
    assert_eq!(state.browser.playlists[0].next_page.next_offset, Some(BATCH_SIZE));
    let events = state.apply(AppAction::Browser(BrowserAction::AppendPlaylistTracks(
        "pl".to_string(),
        songs_n("b", 3),
    )));
    assert_eq!(
        events,
        vec![AppEvent::BrowserEvent(BrowserEvent::PlaylistTracksAppended("pl".to_string(), BATCH_SIZE))]
    );
    assert_eq!(state.browser.playlists[0].next_page.next_offset, None);
    let model = PlaylistDetailsModel::new("pl".to_string());
    match model.diff_for_event(&state, &events[0]) {
        Some(ListDiff::Append(rows)) => {
            let got: Vec<(usize, String)> = rows.iter().map(|r| (r.index, r.song.id.clone())).collect();
            assert_eq!(
                got,
                vec![
                    (BATCH_SIZE, "b0".to_string()),
                    (BATCH_SIZE + 1, "b1".to_string()),
                    (BATCH_SIZE + 2, "b2".to_string())
                ]
            );
        }
        other => panic!("unexpected diff {:?}", other),
    }
    let mut d = spot::dispatch::Dispatcher::new();
    assert_eq!(model.load_more_tracks(&state, &mut d), None);
}

#[test]
fn append_to_unknown_playlist_changes_nothing() {
    let mut state = empty_state();
    let before = state.clone();
    let events = state.apply(AppAction::Browser(BrowserAction::AppendPlaylistTracks(
        "nope".to_string(),
        songs_n("x", 2),
    )));
    assert!(events.is_empty());
    assert_eq!(state, before);
}

#[test]
fn playback_selection_and_mode_actions() {
    let mut state = empty_state();
    let e1 = state.apply(AppAction::Playback(PlaybackAction::LoadPlaylist(
        Some(PlaylistSource::Album("a".to_string())),
        vec![song("A")],
    )));
    assert_eq!(e1, vec![AppEvent::PlaylistChanged]);
    assert_eq!(state.playback.source, Some(PlaylistSource::Album("a".to_string())));
    let e2 = state.apply(AppAction::Playback(PlaybackAction::Load("A".to_string())));
    assert_eq!(e2, vec![AppEvent::TrackChanged("A".to_string())]);
    assert_eq!(state.playback.current_song_id, Some("A".to_string()));
    let e3 = state.apply(AppAction::Selection(SelectionAction::Select(vec![song("A"), song("B")])));
    assert_eq!(e3, vec![AppEvent::SelectionChanged]);
    assert_eq!(state.selection.selected, vec!["A".to_string(), "B".to_string()]);
    assert_eq!(
        state.apply(AppAction::ChangeSelectionMode(true)),
        vec![AppEvent::SelectionModeChanged(true)]
    );
    assert!(state.apply(AppAction::ViewArtist("x".to_string())).is_empty());
    assert!(state.apply(AppAction::QueueSelection).is_empty());
}

#[test]
fn borrow_flag_discipline() {
    let mut f = BorrowFlag::new();
    assert_eq!(f.try_borrow(), Ok(()));
    assert_eq!(f.try_borrow(), Ok(()));
    assert_eq!(f.try_borrow_mut(), Err(BorrowError::Borrowed));
    f.release();
    f.release();
    assert_eq!(f.try_borrow_mut(), Ok(()));
    assert_eq!(f.try_borrow(), Err(BorrowError::MutablyBorrowed));
    assert_eq!(f.try_borrow_mut(), Err(BorrowError::MutablyBorrowed));
    f.release_mut();
    assert_eq!(f.try_borrow(), Ok(()));
    let mut full = BorrowFlag { readers: usize::MAX, writing: false };
    assert_eq!(full.try_borrow(), Err(BorrowError::TooManyReaders));
}
