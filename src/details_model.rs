use vstd::prelude::*;
use crate::dispatch::{
    dispatch_play, dispatch_select_all, dispatch_select_song, play_actions_ok,
    select_all_action_ok, is_select_of, ApiRequest, Dispatcher,
};
use crate::models::{
    artist_actions, first_index, push_artist_actions, push_tail_actions, rows_from, rows_of,
    song_ids, tail_actions, AlbumDescription, ListDiff, ListDiffView, SongAction,
    SongDescription,
};
use crate::state::{
    event_entity, is_source, AppAction, AppEvent, AppState, BrowserAction, BrowserEvent, SelectionAction,
    SelectionState, SelectionTool,
};

verus! {

/// The model behind an album's detail panel.
#[derive(Debug, Clone, PartialEq, Eq)]
pub struct DetailsModel {
    pub id: String,
}

impl DetailsModel {
    pub fn new(id: String) -> (r: DetailsModel)
        ensures
            r.id == id,
    {
        DetailsModel { id }
    }

    /// The songs of the album, once it is loaded.
    pub open spec fn spec_songs(&self, state: AppState) -> Option<Seq<SongDescription>> {
        match state.browser.album(self.id@) {
            Some(a) => Some(a.songs@),
            None => None,
        }
    }

    /// The first loaded song of the album with id `id`.
    pub open spec fn spec_song(&self, state: AppState, id: Seq<char>) -> Option<SongDescription> {
        match self.spec_songs(state) {
            Some(songs) => match first_index(song_ids(songs), id) {
                Some(i) => Some(songs[i]),
                None => None,
            },
            None => None,
        }
    }

    /// The list update that `event` calls for.
    pub open spec fn spec_diff(&self, state: AppState, event: AppEvent) -> Option<ListDiffView> {
        match event {
            AppEvent::BrowserEvent(BrowserEvent::AlbumDetailsLoaded(e)) => {
                if e@ == self.id@ {
                    match self.spec_songs(state) {
                        Some(songs) => Some(ListDiffView::Replace(rows_from(songs, 0))),
                        None => None,
                    }
                } else {
                    None
                }
            },
            _ => None,
        }
    }

    /// An event about another entity never changes this panel's list,
    /// whatever its kind.
    pub proof fn lemma_diff_ignores_other_entities(&self, state: AppState, event: AppEvent)
        requires
            event_entity(event) matches Some(e) && e != self.id@,
        ensures
            self.spec_diff(state, event) is None,
    {
    }

    /// Once the store holds the loaded album, the event that it emitted for
    /// it makes this panel replace its list with exactly the album's songs,
    /// in order, each at its position.
    pub proof fn lemma_loaded_album_replaces_list(
        &self,
        state: AppState,
        album: AlbumDescription,
        event: AppEvent,
    )
        requires
            album.id@ == self.id@,
            state.browser.album(album.id@) == Some(album),
            event == AppEvent::BrowserEvent(BrowserEvent::AlbumDetailsLoaded(album.id)),
        ensures
            self.spec_diff(state, event) == Some(ListDiffView::Replace(rows_from(album.songs@, 0))),
            rows_from(album.songs@, 0).len() == album.songs@.len(),
            forall|i: int|
                0 <= i < album.songs@.len() ==> #[trigger] rows_from(album.songs@, 0)[i] == (
                    i,
                    album.songs@[i]@,
                ),
    {
        crate::models::lemma_rows_from_start(album.songs@);
    }

    fn songs_ref<'a>(&self, state: &'a AppState) -> (r: Option<&'a Vec<SongDescription>>)
        ensures
            r matches Some(v) ==> self.spec_songs(*state) == Some(v@),
            r is None ==> self.spec_songs(*state) is None,
    {
        match state.browser.album_index(&self.id) {
            Some(i) => match &state.browser.albums[i].content {
                Some(a) => Some(&a.songs),
                None => None,
            },
            None => None,
        }
    }

    /// The album, once it is loaded.
    pub fn get_album_info<'a>(&self, state: &'a AppState) -> (r: Option<&'a AlbumDescription>)
        ensures
            r matches Some(a) ==> state.browser.album(self.id@) == Some(*a),
            r is None ==> state.browser.album(self.id@) is None,
    {
        match state.browser.album_index(&self.id) {
            Some(i) => match &state.browser.albums[i].content {
                Some(a) => Some(a),
                None => None,
            },
            None => None,
        }
    }

    /// Asks for the album to be fetched.
    pub fn load_album_info(&self, d: &mut Dispatcher)
        ensures
            final(d).actions@ == old(d).actions@,
            final(d).requests@ == old(d).requests@.push(ApiRequest::GetAlbum(self.id)),
    {
        d.dispatch_async(ApiRequest::GetAlbum(self.id.clone()));
    }

    /// The action that a fetch of the album resolves to; a failure is handed
    /// back for reporting and changes nothing.
    pub fn on_album_loaded<E>(result: Result<AlbumDescription, E>) -> (r: Result<AppAction, E>)
        ensures
            result matches Ok(a) ==> r == Ok::<AppAction, E>(
                AppAction::Browser(BrowserAction::SetAlbumDetails(a)),
            ),
            result matches Err(e) ==> r == Err::<AppAction, E>(e),
    {
        match result {
            Ok(album) => Ok(AppAction::Browser(BrowserAction::SetAlbumDetails(album))),
            Err(e) => Err(e),
        }
    }

    /// Opens the page of the album's first artist, once the album is loaded.
    pub fn view_artist(&self, state: &AppState, d: &mut Dispatcher)
        ensures
            final(d).requests@ == old(d).requests@,
            match state.browser.album(self.id@) {
                Some(a) if a.artists@.len() > 0 => final(d).actions@ == old(d).actions@.push(
                    AppAction::ViewArtist(a.artists@[0].id),
                ),
                _ => final(d).actions@ == old(d).actions@,
            },
    {
        match self.get_album_info(state) {
            Some(album) => {
                if album.artists.len() > 0 {
                    d.dispatch(AppAction::ViewArtist(album.artists[0].id.clone()));
                }
            },
            None => {},
        }
    }

    /// Asks for the album to be saved, or removed from the saved albums where
    /// it is saved already.
    pub fn toggle_save_album(&self, state: &AppState, d: &mut Dispatcher)
        ensures
            final(d).actions@ == old(d).actions@,
            match state.browser.album(self.id@) {
                Some(a) => final(d).requests@ == old(d).requests@.push(
                    if a.is_liked {
                        ApiRequest::RemoveSavedAlbum(a.id)
                    } else {
                        ApiRequest::SaveAlbum(a.id)
                    },
                ),
                None => final(d).requests@ == old(d).requests@,
            },
    {
        match self.get_album_info(state) {
            Some(album) => {
                let id = album.id.clone();
                if album.is_liked {
                    d.dispatch_async(ApiRequest::RemoveSavedAlbum(id));
                } else {
                    d.dispatch_async(ApiRequest::SaveAlbum(id));
                }
            },
            None => {},
        }
    }

    /// The action that saving an album resolves to: the album as the server
    /// confirmed it.
    pub fn on_album_saved<E>(result: Result<AlbumDescription, E>) -> (r: Result<AppAction, E>)
        ensures
            result matches Ok(a) ==> r == Ok::<AppAction, E>(
                AppAction::Browser(BrowserAction::SaveAlbum(a)),
            ),
            result matches Err(e) ==> r == Err::<AppAction, E>(e),
    {
        match result {
            Ok(album) => Ok(AppAction::Browser(BrowserAction::SaveAlbum(album))),
            Err(e) => Err(e),
        }
    }

    /// The action that removing the album `id` from the saved albums resolves to.
    pub fn on_album_unsaved<E>(id: String, result: Result<(), E>) -> (r: Result<AppAction, E>)
        ensures
            result is Ok ==> r == Ok::<AppAction, E>(AppAction::Browser(BrowserAction::UnsaveAlbum(id))),
            result matches Err(e) ==> r == Err::<AppAction, E>(e),
    {
        match result {
            Ok(_) => Ok(AppAction::Browser(BrowserAction::UnsaveAlbum(id))),
            Err(e) => Err(e),
        }
    }

    /// Selects the loaded song with id `id`; nothing where there is none.
    pub fn select_song(&self, state: &AppState, id: &String, d: &mut Dispatcher)
        ensures
            final(d).requests@ == old(d).requests@,
            match self.spec_song(*state, id@) {
                Some(song) => final(d).actions@.len() == old(d).actions@.len() + 1
                    && final(d).actions@.subrange(0, old(d).actions@.len() as int) == old(d).actions@
                    && is_select_of(final(d).actions@.last(), seq![song@]),
                None => final(d).actions@ == old(d).actions@,
            },
    {
        match self.songs_ref(state) {
            Some(songs) => dispatch_select_song(songs, id, d),
            None => {},
        }
    }

    /// Deselects the song with id `id`.
    pub fn deselect_song(&self, id: &String, d: &mut Dispatcher)
        ensures
            final(d).requests@ == old(d).requests@,
            final(d).actions@.len() == old(d).actions@.len() + 1,
            final(d).actions@.subrange(0, old(d).actions@.len() as int) == old(d).actions@,
            final(d).actions@.last() matches AppAction::Selection(SelectionAction::Deselect(v))
                && v@ == seq![*id],
    {
        let v = vec![id.clone()];
        d.dispatch(AppAction::Selection(SelectionAction::Deselect(v)));
        assert(final(d).actions@.subrange(0, old(d).actions@.len() as int) =~= old(d).actions@);
    }

    /// Turns selection mode on; this panel supports it.
    pub fn enable_selection(&self, d: &mut Dispatcher) -> (r: bool)
        ensures
            r,
            final(d).requests@ == old(d).requests@,
            final(d).actions@ == old(d).actions@.push(AppAction::ChangeSelectionMode(true)),
    {
        d.dispatch(AppAction::ChangeSelectionMode(true));
        true
    }

    /// The current selection.
    pub fn selection<'a>(&self, state: &'a AppState) -> (r: Option<&'a SelectionState>)
        ensures
            r matches Some(s) && *s == state.selection,
    {
        Some(&state.selection)
    }

    /// The id of the song that is playing, if any.
    pub fn current_song_id(&self, state: &AppState) -> (r: Option<String>)
        ensures
            r == state.playback.current_song_id,
    {
        state.playback.current_song_id()
    }

    /// Plays the song `id`, first loading the album's songs into the player
    /// where it holds something else.
    pub fn play_song(&self, state: &AppState, id: &String, d: &mut Dispatcher)
        ensures
            final(d).requests@ == old(d).requests@,
            final(d).actions@.subrange(0, old(d).actions@.len() as int) == old(d).actions@,
            final(d).actions@.len() >= old(d).actions@.len(),
            play_actions_ok(
                final(d).actions@.subrange(old(d).actions@.len() as int, final(d).actions@.len() as int),
                is_source(state.playback.source, true, self.id@),
                true,
                self.id@,
                self.spec_songs(*state),
                id@,
            ),
    {
        let holds = state.playback.is_source(true, &self.id);
        dispatch_play(holds, true, &self.id, self.songs_ref(state), id, d);
    }

    /// The list update that `event` calls for: the whole song list once the
    /// album is loaded; nothing for any other event.
    pub fn diff_for_event(&self, state: &AppState, event: &AppEvent) -> (r: Option<ListDiff>)
        ensures
            r matches Some(x) ==> self.spec_diff(*state, *event) == Some(x@),
            r is None ==> self.spec_diff(*state, *event) is None,
    {
        match event {
            AppEvent::BrowserEvent(BrowserEvent::AlbumDetailsLoaded(e)) => {
                if *e == self.id {
                    match self.songs_ref(state) {
                        Some(songs) => Some(ListDiff::Replace(rows_of(songs, 0))),
                        None => None,
                    }
                } else {
                    None
                }
            },
            _ => None,
        }
    }

    /// The operations offered for the loaded song `id`: view each artist,
    /// copy a link, queue it.
    pub fn actions_for(&self, state: &AppState, id: &String) -> (r: Option<Vec<SongAction>>)
        ensures
            match self.spec_song(*state, id@) {
                Some(song) => r matches Some(v) && v@ == artist_actions(song.artists@) + tail_actions(song),
                None => r is None,
            },
    {
        let songs = match self.songs_ref(state) {
            Some(s) => s,
            None => return None,
        };
        proof {
            crate::models::lemma_first_index_props(song_ids(songs@), id@);
        }
        match crate::models::find_song(songs, id) {
            Some(i) => {
                let song = &songs[i];
                let mut v: Vec<SongAction> = Vec::new();
                push_artist_actions(song, &mut v);
                push_tail_actions(song, &mut v);
                assert(v@ =~= artist_actions(song.artists@) + tail_actions(*song));
                Some(v)
            },
            None => None,
        }
    }

    /// The menu for the loaded song `id`, one entry for each of its
    /// operations and in the same order.
    pub fn menu_for(&self, state: &AppState, id: &String) -> (r: Option<Vec<SongAction>>)
        ensures
            match self.spec_song(*state, id@) {
                Some(song) => r matches Some(v) && v@ == artist_actions(song.artists@) + tail_actions(song),
                None => r is None,
            },
    {
        self.actions_for(state, id)
    }

    /// Runs a selection tool: its own action where it has one; for select-all,
    /// deselect every song where all are selected, else select them all.
    pub fn handle_tool_activated(
        &self,
        state: &AppState,
        selection: &SelectionState,
        tool: &SelectionTool,
        d: &mut Dispatcher,
    )
        ensures
            final(d).requests@ == old(d).requests@,
            match (tool.spec_default_action(), *tool, self.spec_songs(*state)) {
                (Some(a), _, _) => final(d).actions@ == old(d).actions@.push(a),
                (None, SelectionTool::SelectAll, Some(songs)) => final(d).actions@.len()
                    == old(d).actions@.len() + 1 && final(d).actions@.subrange(
                    0,
                    old(d).actions@.len() as int,
                ) == old(d).actions@ && select_all_action_ok(
                    final(d).actions@.last(),
                    *selection,
                    songs,
                ),
                _ => final(d).actions@ == old(d).actions@,
            },
    {
        match tool.default_action() {
            Some(a) => d.dispatch(a),
            None => match tool {
                SelectionTool::SelectAll => match self.songs_ref(state) {
                    Some(songs) => dispatch_select_all(songs, selection, d),
                    None => {},
                },
                _ => {},
            },
        }
    }
}

} // verus!
