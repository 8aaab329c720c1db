use spot::details_model::DetailsModel;
use spot::dispatch::{ApiRequest, Dispatcher};
use spot::models::{
    AlbumDescription, AlbumRef, ArtistRef, ListDiff, PlaylistDescription, SongAction,
    SongDescription, UserRef,
};
use spot::playlist_details_model::PlaylistDetailsModel;
use spot::state::{
    AppAction, AppEvent, AppState, BrowserAction, BrowserEvent, BrowserState, DetailsState,
    NextPage, PlaybackAction, PlaybackState, PlaylistDetailsState, PlaylistSource,
    SelectionAction, SelectionState, SelectionTool,
};

fn artist(id: &str) -> ArtistRef {
    ArtistRef { id: id.to_string(), name: format!("name of {}", id) }
}

fn song(id: &str) -> SongDescription {
    SongDescription {
        id: id.to_string(),
        title: format!("title of {}", id),
        artists: vec![artist("art1"), artist("art2")],
        album: AlbumRef { id: "alb".to_string(), name: "The Album".to_string() },
    }
}

fn songs(ids: &[&str]) -> Vec<SongDescription> {
    ids.iter().map(|i| song(i)).collect()
}

fn album(id: &str, ids: &[&str], is_liked: bool) -> AlbumDescription {
    AlbumDescription {
        id: id.to_string(),
        title: "An album".to_string(),
        artists: vec![artist("art1")],
        songs: songs(ids),
        is_liked,
    }
}

fn playlist(id: &str, ids: &[&str]) -> PlaylistDescription {
    PlaylistDescription {
        id: id.to_string(),
        title: "A playlist".to_string(),
        owner: UserRef { id: "owner1".to_string(), display_name: "Owner".to_string() },
        songs: songs(ids),
    }
}

fn empty_state() -> AppState {
    AppState {
        browser: BrowserState { albums: vec![], playlists: vec![] },
        playback: PlaybackState { source: None, current_song_id: None },
        selection: SelectionState::new(),
    }
}

fn album_state(id: &str, ids: &[&str]) -> AppState {
    let mut s = empty_state();
    s.browser.albums.push(DetailsState { id: id.to_string(), content: Some(album(id, ids, false)) });
    s
}

fn playlist_state(id: &str, ids: &[&str], next_offset: Option<usize>) -> AppState {
    let mut s = empty_state();
    s.browser.playlists.push(PlaylistDetailsState {
        id: id.to_string(),
        playlist: Some(playlist(id, ids)),
        next_page: NextPage { next_offset, batch_size: 50 },
    });
    s
}

fn row_ids(rows: &[spot::models::SongModel]) -> Vec<(usize, String)> {
    rows.iter().map(|r| (r.index, r.song.id.clone())).collect()
}

fn selection_of(ids: &[&str]) -> SelectionState {
    SelectionState { selected: ids.iter().map(|i| i.to_string()).collect() }
}

#[test]
fn album_loaded_event_replaces_list() {
    let state = album_state("album:42", &["A", "B", "C"]);
    let model = DetailsModel::new("album:42".to_string());
    let event = AppEvent::BrowserEvent(BrowserEvent::AlbumDetailsLoaded("album:42".to_string()));
    match model.diff_for_event(&state, &event) {
        Some(ListDiff::Replace(rows)) => assert_eq!(
            row_ids(&rows),
            vec![(0, "A".to_string()), (1, "B".to_string()), (2, "C".to_string())]
        ),
        other => panic!("unexpected diff {:?}", other),
    }
    let other = AppEvent::BrowserEvent(BrowserEvent::AlbumDetailsLoaded("album:99".to_string()));
    assert!(model.diff_for_event(&state, &other).is_none());
}

#[test]
fn album_diff_ignores_other_events() {
    let state = album_state("album:42", &["A"]);
    let model = DetailsModel::new("album:42".to_string());
    let events = vec![
        AppEvent::BrowserEvent(BrowserEvent::AlbumSaved("album:42".to_string())),
        AppEvent::BrowserEvent(BrowserEvent::AlbumDetailsLoaded("album:7".to_string())),
        AppEvent::BrowserEvent(BrowserEvent::PlaylistDetailsLoaded("album:7".to_string())),
        AppEvent::SelectionChanged,
        AppEvent::TrackChanged("A".to_string()),
    ];
    for e in events.iter() {
        assert!(model.diff_for_event(&state, e).is_none());
    }
}

#[test]
fn album_diff_absent_before_load() {
    let state = empty_state();
    let model = DetailsModel::new("album:42".to_string());
    let event = AppEvent::BrowserEvent(BrowserEvent::AlbumDetailsLoaded("album:42".to_string()));
    assert!(model.diff_for_event(&state, &event).is_none());
}

#[test]
fn playlist_append_event_appends_from_index() {
    let state = playlist_state("pl1", &["A", "B", "C", "D"], Some(4));
    let model = PlaylistDetailsModel::new("pl1".to_string());
    let event =
        AppEvent::BrowserEvent(BrowserEvent::PlaylistTracksAppended("pl1".to_string(), 2));
    match model.diff_for_event(&state, &event) {
        Some(ListDiff::Append(rows)) => {
            assert_eq!(row_ids(&rows), vec![(2, "C".to_string()), (3, "D".to_string())])
        }
        other => panic!("unexpected diff {:?}", other),
    }
    let loaded = AppEvent::BrowserEvent(BrowserEvent::PlaylistDetailsLoaded("pl1".to_string()));
    match model.diff_for_event(&state, &loaded) {
        Some(ListDiff::Replace(rows)) => assert_eq!(rows.len(), 4),
        other => panic!("unexpected diff {:?}", other),
    }
    let other = AppEvent::BrowserEvent(BrowserEvent::PlaylistTracksAppended("pl2".to_string(), 2));
    assert!(model.diff_for_event(&state, &other).is_none());
}

#[test]
fn playlist_append_past_end_is_empty() {
    let state = playlist_state("pl1", &["A"], None);
    let model = PlaylistDetailsModel::new("pl1".to_string());
    let event =
        AppEvent::BrowserEvent(BrowserEvent::PlaylistTracksAppended("pl1".to_string(), 5));
    assert_eq!(model.diff_for_event(&state, &event), Some(ListDiff::Append(vec![])));
}

#[test]
fn select_all_selects_whole_list_when_partly_selected() {
    let state = album_state("album:1", &["A", "B", "C"]);
    let model = DetailsModel::new("album:1".to_string());
    let mut d = Dispatcher::new();
    model.handle_tool_activated(&state, &selection_of(&["A", "B"]), &SelectionTool::SelectAll, &mut d);
    assert_eq!(
        d.actions,
        vec![AppAction::Selection(SelectionAction::Select(songs(&["A", "B", "C"])))]
    );
}

#[test]
fn select_all_toggles_between_all_and_none() {
    let state = playlist_state("pl1", &["A", "B"], None);
    let model = PlaylistDetailsModel::new("pl1".to_string());
    let mut sel = SelectionState::new();
    let mut d = Dispatcher::new();
    model.select_song(&state, &"A".to_string(), &mut d);
    model.select_song(&state, &"B".to_string(), &mut d);
    for a in d.actions.iter() {
        if let AppAction::Selection(sa) = a {
            sel.apply(sa);
        }
    }
    let mut d2 = Dispatcher::new();
    model.handle_tool_activated(&state, &sel, &SelectionTool::SelectAll, &mut d2);
    let expected = SelectionAction::Deselect(vec!["A".to_string(), "B".to_string()]);
    assert_eq!(d2.actions, vec![AppAction::Selection(expected.clone())]);
    sel.apply(&expected);
    assert!(sel.selected.is_empty());
    let mut d3 = Dispatcher::new();
    model.handle_tool_activated(&state, &sel, &SelectionTool::SelectAll, &mut d3);
    assert_eq!(
        d3.actions,
        vec![AppAction::Selection(SelectionAction::Select(songs(&["A", "B"])))]
    );
}

#[test]
fn tool_with_default_action_dispatches_it() {
    let state = album_state("album:1", &["A"]);
    let model = DetailsModel::new("album:1".to_string());
    let mut d = Dispatcher::new();
    model.handle_tool_activated(&state, &selection_of(&[]), &SelectionTool::AddToQueue, &mut d);
    assert_eq!(d.actions, vec![AppAction::QueueSelection]);
    let mut d2 = Dispatcher::new();
    model.handle_tool_activated(&state, &selection_of(&[]), &SelectionTool::MoveUp, &mut d2);
    assert!(d2.actions.is_empty());
}

#[test]
fn select_all_before_load_does_nothing() {
    let model = DetailsModel::new("album:1".to_string());
    let mut d = Dispatcher::new();
    model.handle_tool_activated(&empty_state(), &selection_of(&[]), &SelectionTool::SelectAll, &mut d);
    assert!(d.actions.is_empty());
}

#[test]
fn play_from_other_source_loads_queue_first() {
    let state = album_state("album:1", &["A", "B"]);
    let model = DetailsModel::new("album:1".to_string());
    let mut d = Dispatcher::new();
    model.play_song(&state, &"B".to_string(), &mut d);
    assert_eq!(
        d.actions,
        vec![
            AppAction::Playback(PlaybackAction::LoadPlaylist(
                Some(PlaylistSource::Album("album:1".to_string())),
                songs(&["A", "B"])
            )),
            AppAction::Playback(PlaybackAction::Load("B".to_string())),
        ]
    );
}

#[test]
fn play_from_same_source_only_loads_song() {
    let mut state = playlist_state("pl1", &["A", "B"], None);
    state.playback.source = Some(PlaylistSource::Playlist("pl1".to_string()));
    let model = PlaylistDetailsModel::new("pl1".to_string());
    let mut d = Dispatcher::new();
    model.play_song(&state, &"A".to_string(), &mut d);
    assert_eq!(d.actions, vec![AppAction::Playback(PlaybackAction::Load("A".to_string()))]);
}

#[test]
fn play_album_id_held_as_playlist_reloads() {
    let mut state = album_state("x", &["A"]);
    state.playback.source = Some(PlaylistSource::Playlist("x".to_string()));
    let model = DetailsModel::new("x".to_string());
    let mut d = Dispatcher::new();
    model.play_song(&state, &"A".to_string(), &mut d);
    assert_eq!(d.actions.len(), 2);
}

#[test]
fn load_more_without_cursor_does_nothing() {
    let state = playlist_state("pl1", &["A"], None);
    let model = PlaylistDetailsModel::new("pl1".to_string());
    let mut d = Dispatcher::new();
    assert_eq!(model.load_more_tracks(&state, &mut d), None);
    assert!(d.requests.is_empty());
    assert!(d.actions.is_empty());
    assert_eq!(model.load_more_tracks(&empty_state(), &mut d), None);
    assert!(d.requests.is_empty());
}

#[test]
fn load_more_with_cursor_asks_for_next_page() {
    let state = playlist_state("pl1", &["A"], Some(1));
    let model = PlaylistDetailsModel::new("pl1".to_string());
    let mut d = Dispatcher::new();
    assert_eq!(model.load_more_tracks(&state, &mut d), Some(()));
    assert_eq!(d.requests, vec![ApiRequest::GetPlaylistTracks("pl1".to_string(), 1, 50)]);
}

#[test]
fn completions_turn_results_into_actions() {
    let a = album("album:1", &["A"], true);
    assert_eq!(
        DetailsModel::on_album_loaded::<String>(Ok(a.clone())),
        Ok(AppAction::Browser(BrowserAction::SetAlbumDetails(a.clone())))
    );
    assert_eq!(
        DetailsModel::on_album_loaded::<String>(Err("offline".to_string())),
        Err("offline".to_string())
    );
    assert_eq!(
        DetailsModel::on_album_saved::<String>(Ok(a.clone())),
        Ok(AppAction::Browser(BrowserAction::SaveAlbum(a)))
    );
    assert_eq!(
        DetailsModel::on_album_unsaved::<String>("album:1".to_string(), Ok(())),
        Ok(AppAction::Browser(BrowserAction::UnsaveAlbum("album:1".to_string())))
    );
    assert_eq!(
        PlaylistDetailsModel::on_tracks_loaded::<String>("pl1".to_string(), Ok(songs(&["Z"]))),
        Ok(AppAction::Browser(BrowserAction::AppendPlaylistTracks("pl1".to_string(), songs(&["Z"]))))
    );
    let p = playlist("pl1", &["A"]);
    assert_eq!(
        PlaylistDetailsModel::on_playlist_loaded::<String>(Ok(p.clone())),
        Ok(AppAction::Browser(BrowserAction::SetPlaylistDetails(p)))
    );
}

#[test]
fn load_requests_carry_the_entity_id() {
    let mut d = Dispatcher::new();
    DetailsModel::new("album:1".to_string()).load_album_info(&mut d);
    PlaylistDetailsModel::new("pl1".to_string()).load_playlist_info(&mut d);
    assert_eq!(
        d.requests,
        vec![ApiRequest::GetAlbum("album:1".to_string()), ApiRequest::GetPlaylist("pl1".to_string())]
    );
    assert!(d.actions.is_empty());
}

#[test]
fn toggle_save_follows_saved_flag() {
    let model = DetailsModel::new("album:1".to_string());
    let mut state = empty_state();
    state.browser.albums.push(DetailsState {
        id: "album:1".to_string(),
        content: Some(album("album:1", &["A"], true)),
    });
    let mut d = Dispatcher::new();
    model.toggle_save_album(&state, &mut d);
    state.browser.albums[0].content.as_mut().unwrap().is_liked = false;
    model.toggle_save_album(&state, &mut d);
    model.toggle_save_album(&empty_state(), &mut d);
    assert_eq!(
        d.requests,
        vec![
            ApiRequest::RemoveSavedAlbum("album:1".to_string()),
            ApiRequest::SaveAlbum("album:1".to_string())
        ]
    );
}

#[test]
fn view_related_entities() {
    let mut d = Dispatcher::new();
    DetailsModel::new("album:1".to_string()).view_artist(&album_state("album:1", &["A"]), &mut d);
    PlaylistDetailsModel::new("pl1".to_string()).view_owner(&playlist_state("pl1", &[], None), &mut d);
    DetailsModel::new("album:2".to_string()).view_artist(&album_state("album:1", &["A"]), &mut d);
    assert_eq!(
        d.actions,
        vec![AppAction::ViewArtist("art1".to_string()), AppAction::ViewUser("owner1".to_string())]
    );
}

#[test]
fn select_and_deselect_song() {
    let state = album_state("album:1", &["A", "B"]);
    let model = DetailsModel::new("album:1".to_string());
    let mut d = Dispatcher::new();
    model.select_song(&state, &"B".to_string(), &mut d);
    model.select_song(&state, &"missing".to_string(), &mut d);
    model.deselect_song(&"B".to_string(), &mut d);
    assert!(model.enable_selection(&mut d));
    assert_eq!(
        d.actions,
        vec![
            AppAction::Selection(SelectionAction::Select(songs(&["B"]))),
            AppAction::Selection(SelectionAction::Deselect(vec!["B".to_string()])),
            AppAction::ChangeSelectionMode(true),
        ]
    );
}

#[test]
fn selection_apply_keeps_ids_unique() {
    let mut sel = selection_of(&["A"]);
    sel.apply(&SelectionAction::Select(songs(&["A", "B", "B"])));
    assert_eq!(sel.selected, vec!["A".to_string(), "B".to_string()]);
    assert!(sel.all_selected(&songs(&["B", "A"])));
    assert!(!sel.all_selected(&songs(&["C"])));
    assert!(sel.all_selected(&vec![]));
    sel.apply(&SelectionAction::Deselect(vec!["A".to_string(), "Q".to_string()]));
    assert_eq!(sel.selected, vec!["B".to_string()]);
}

#[test]
fn album_song_actions_and_menu() {
    let state = album_state("album:1", &["A"]);
    let model = DetailsModel::new("album:1".to_string());
    let expected = vec![
        SongAction::ViewArtist(artist("art1")),
        SongAction::ViewArtist(artist("art2")),
        SongAction::CopyLink("A".to_string()),
        SongAction::Queue("A".to_string()),
    ];
    assert_eq!(model.actions_for(&state, &"A".to_string()), Some(expected.clone()));
    assert_eq!(model.menu_for(&state, &"A".to_string()), Some(expected));
    assert_eq!(model.actions_for(&state, &"Z".to_string()), None);
    assert_eq!(model.menu_for(&state, &"Z".to_string()), None);
}

#[test]
fn playlist_song_actions_and_menu() {
    let state = playlist_state("pl1", &["A"], None);
    let model = PlaylistDetailsModel::new("pl1".to_string());
    let view_album =
        SongAction::ViewAlbum(AlbumRef { id: "alb".to_string(), name: "The Album".to_string() });
    assert_eq!(
        model.actions_for(&state, &"A".to_string()),
        Some(vec![
            SongAction::ViewArtist(artist("art1")),
            SongAction::ViewArtist(artist("art2")),
            view_album.clone(),
            SongAction::CopyLink("A".to_string()),
            SongAction::Queue("A".to_string()),
        ])
    );
    assert_eq!(
        model.menu_for(&state, &"A".to_string()),
        Some(vec![
            view_album,
            SongAction::ViewArtist(artist("art1")),
            SongAction::ViewArtist(artist("art2")),
            SongAction::CopyLink("A".to_string()),
            SongAction::Queue("A".to_string()),
        ])
    );
    assert_eq!(model.actions_for(&empty_state(), &"A".to_string()), None);
}

#[test]
fn current_song_and_info_projections() {
    let mut state = album_state("album:1", &["A"]);
    let model = DetailsModel::new("album:1".to_string());
    assert_eq!(model.current_song_id(&state), None);
    state.playback.current_song_id = Some("A".to_string());
    assert_eq!(model.current_song_id(&state), Some("A".to_string()));
    assert_eq!(model.get_album_info(&state).map(|a| a.id.clone()), Some("album:1".to_string()));
    assert!(DetailsModel::new("nope".to_string()).get_album_info(&state).is_none());
    assert!(model.selection(&state).is_some());
    let pstate = playlist_state("pl1", &[], None);
    let pmodel = PlaylistDetailsModel::new("pl1".to_string());
    assert_eq!(pmodel.get_playlist_info(&pstate).map(|p| p.owner.id.clone()), Some("owner1".to_string()));
}
