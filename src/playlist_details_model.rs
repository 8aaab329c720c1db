use vstd::prelude::*;
use crate::dispatch::{
    dispatch_play, dispatch_select_all, dispatch_select_song, play_actions_ok,
    select_all_action_ok, is_select_of, ApiRequest, Dispatcher,
};
use crate::models::{
    artist_actions, first_index, push_artist_actions, push_tail_actions, rows_from, rows_of,
    song_ids, tail_actions, PlaylistDescription, ListDiff, ListDiffView, SongAction,
    SongDescription,
};
use crate::state::{
    event_entity, is_source, AppAction, AppEvent, AppState, BrowserAction, BrowserEvent, SelectionAction,
    SelectionState, SelectionTool,
};

verus! {

/// The model behind a playlist's detail panel.
#[derive(Debug, Clone, PartialEq, Eq)]
pub struct PlaylistDetailsModel {
    pub id: String,
}

impl PlaylistDetailsModel {
    pub fn new(id: String) -> (r: PlaylistDetailsModel)
        ensures
            r.id == id,
    {
        PlaylistDetailsModel { id }
    }

    /// The songs of the playlist loaded so far, once it is loaded.
    pub open spec fn spec_songs(&self, state: AppState) -> Option<Seq<SongDescription>> {
        match state.browser.playlist(self.id@) {
            Some(p) => Some(p.songs@),
            None => None,
        }
    }

    /// The first loaded song of the playlist with id `id`.
    pub open spec fn spec_song(&self, state: AppState, id: Seq<char>) -> Option<SongDescription> {
        match self.spec_songs(state) {
            Some(songs) => match first_index(song_ids(songs), id) {
                Some(i) => Some(songs[i]),
                None => None,
            },
            None => None,
        }
    }

    /// The list update that `event` calls for.
    pub open spec fn spec_diff(&self, state: AppState, event: AppEvent) -> Option<ListDiffView> {
        match event {
            AppEvent::BrowserEvent(BrowserEvent::PlaylistDetailsLoaded(e)) => {
                if e@ == self.id@ {
                    match self.spec_songs(state) {
                        Some(songs) => Some(ListDiffView::Replace(rows_from(songs, 0))),
                        None => None,
                    }
                } else {
                    None
                }
            },
            AppEvent::BrowserEvent(BrowserEvent::PlaylistTracksAppended(e, k)) => {
                if e@ == self.id@ {
                    match self.spec_songs(state) {
                        Some(songs) => Some(ListDiffView::Append(rows_from(songs, k as int))),
                        None => None,
                    }
                } else {
                    None
                }
            },
            _ => None,
        }
    }

    /// An event about another entity never changes this panel's list,
    /// whatever its kind.
    pub proof fn lemma_diff_ignores_other_entities(&self, state: AppState, event: AppEvent)
        requires
            event_entity(event) matches Some(e) && e != self.id@,
        ensures
            self.spec_diff(state, event) is None,
    {
    }

    /// Once the store appended a fetched page to the loaded songs, the event
    /// that it emitted makes this panel append exactly the fetched songs,
    /// numbered on from where they start without gaps.
    pub proof fn lemma_appended_page_appends_rows(
        &self,
        before: AppState,
        after: AppState,
        loaded: Seq<SongDescription>,
        fetched: Seq<SongDescription>,
        event: AppEvent,
    )
        requires
            before.browser.playlist(self.id@) matches Some(p) && p.songs@ == loaded,
            after.browser.playlist(self.id@) matches Some(q) && q.songs@ == loaded + fetched,
            event matches AppEvent::BrowserEvent(BrowserEvent::PlaylistTracksAppended(e, k)) && e@
                == self.id@ && k == loaded.len(),
        ensures
            self.spec_diff(after, event) == Some(
                ListDiffView::Append(
                    Seq::new(fetched.len(), |j: int| (loaded.len() + j, fetched[j]@)),
                ),
            ),
    {
        crate::models::lemma_rows_after_append(loaded, fetched);
    }

    fn songs_ref<'a>(&self, state: &'a AppState) -> (r: Option<&'a Vec<SongDescription>>)
        ensures
            r matches Some(v) ==> self.spec_songs(*state) == Some(v@),
            r is None ==> self.spec_songs(*state) is None,
    {
        match state.browser.playlist_index(&self.id) {
            Some(i) => match &state.browser.playlists[i].playlist {
                Some(p) => Some(&p.songs),
                None => None,
            },
            None => None,
        }
    }

    /// The playlist, once it is loaded.
    pub fn get_playlist_info<'a>(&self, state: &'a AppState) -> (r: Option<&'a PlaylistDescription>)
        ensures
            r matches Some(p) ==> state.browser.playlist(self.id@) == Some(*p),
            r is None ==> state.browser.playlist(self.id@) is None,
    {
        match state.browser.playlist_index(&self.id) {
            Some(i) => match &state.browser.playlists[i].playlist {
                Some(p) => Some(p),
                None => None,
            },
            None => None,
        }
    }

    /// Asks for the playlist to be fetched.
    pub fn load_playlist_info(&self, d: &mut Dispatcher)
        ensures
            final(d).actions@ == old(d).actions@,
            final(d).requests@ == old(d).requests@.push(ApiRequest::GetPlaylist(self.id)),
    {
        d.dispatch_async(ApiRequest::GetPlaylist(self.id.clone()));
    }

    /// The action that a fetch of the playlist resolves to; a failure is
    /// handed back for reporting and changes nothing.
    pub fn on_playlist_loaded<E>(result: Result<PlaylistDescription, E>) -> (r: Result<AppAction, E>)
        ensures
            result matches Ok(p) ==> r == Ok::<AppAction, E>(
                AppAction::Browser(BrowserAction::SetPlaylistDetails(p)),
            ),
            result matches Err(e) ==> r == Err::<AppAction, E>(e),
    {
        match result {
            Ok(playlist) => Ok(AppAction::Browser(BrowserAction::SetPlaylistDetails(playlist))),
            Err(e) => Err(e),
        }
    }

    /// Asks for the next page of the playlist's songs. Where there is no next
    /// page (or no panel state yet) nothing is asked and the result is `None`.
    pub fn load_more_tracks(&self, state: &AppState, d: &mut Dispatcher) -> (r: Option<()>)
        ensures
            final(d).actions@ == old(d).actions@,
            match state.browser.playlist_details(self.id@) {
                Some(p) => match p.next_page.next_offset {
                    Some(offset) => r is Some && final(d).requests@ == old(d).requests@.push(
                        ApiRequest::GetPlaylistTracks(self.id, offset, p.next_page.batch_size),
                    ),
                    None => r is None && final(d).requests@ == old(d).requests@,
                },
                None => r is None && final(d).requests@ == old(d).requests@,
            },
    {
        let i = match state.browser.playlist_index(&self.id) {
            Some(i) => i,
            None => return None,
        };
        let page = &state.browser.playlists[i].next_page;
        let next_offset = match page.next_offset {
            Some(o) => o,
            None => return None,
        };
        d.dispatch_async(ApiRequest::GetPlaylistTracks(self.id.clone(), next_offset, page.batch_size));
        Some(())
    }

    /// The action that a fetch of a page of the playlist `id` resolves to:
    /// the fetched songs, to be appended.
    pub fn on_tracks_loaded<E>(id: String, result: Result<Vec<SongDescription>, E>) -> (r: Result<
        AppAction,
        E,
    >)
        ensures
            result matches Ok(v) ==> r == Ok::<AppAction, E>(
                AppAction::Browser(BrowserAction::AppendPlaylistTracks(id, v)),
            ),
            result matches Err(e) ==> r == Err::<AppAction, E>(e),
    {
        match result {
            Ok(tracks) => Ok(AppAction::Browser(BrowserAction::AppendPlaylistTracks(id, tracks))),
            Err(e) => Err(e),
        }
    }

    /// Opens the page of the playlist's owner, once the playlist is loaded.
    pub fn view_owner(&self, state: &AppState, d: &mut Dispatcher)
        ensures
            final(d).requests@ == old(d).requests@,
            match state.browser.playlist(self.id@) {
                Some(p) => final(d).actions@ == old(d).actions@.push(AppAction::ViewUser(p.owner.id)),
                None => final(d).actions@ == old(d).actions@,
            },
    {
        match self.get_playlist_info(state) {
            Some(playlist) => d.dispatch(AppAction::ViewUser(playlist.owner.id.clone())),
            None => {},
        }
    }

    /// Selects the loaded song with id `id`; nothing where there is none.
    pub fn select_song(&self, state: &AppState, id: &String, d: &mut Dispatcher)
        ensures
            final(d).requests@ == old(d).requests@,
            match self.spec_song(*state, id@) {
                Some(song) => final(d).actions@.len() == old(d).actions@.len() + 1
                    && final(d).actions@.subrange(0, old(d).actions@.len() as int) == old(d).actions@
                    && is_select_of(final(d).actions@.last(), seq![song@]),
                None => final(d).actions@ == old(d).actions@,
            },
    {
        match self.songs_ref(state) {
            Some(songs) => dispatch_select_song(songs, id, d),
            None => {},
        }
    }

    /// Deselects the song with id `id`.
    pub fn deselect_song(&self, id: &String, d: &mut Dispatcher)
        ensures
            final(d).requests@ == old(d).requests@,
            final(d).actions@.len() == old(d).actions@.len() + 1,
            final(d).actions@.subrange(0, old(d).actions@.len() as int) == old(d).actions@,
            final(d).actions@.last() matches AppAction::Selection(SelectionAction::Deselect(v))
                && v@ == seq![*id],
    {
        let v = vec![id.clone()];
        d.dispatch(AppAction::Selection(SelectionAction::Deselect(v)));
        assert(final(d).actions@.subrange(0, old(d).actions@.len() as int) =~= old(d).actions@);
    }

    /// Turns selection mode on; this panel supports it.
    pub fn enable_selection(&self, d: &mut Dispatcher) -> (r: bool)
        ensures
            r,
            final(d).requests@ == old(d).requests@,
            final(d).actions@ == old(d).actions@.push(AppAction::ChangeSelectionMode(true)),
    {
        d.dispatch(AppAction::ChangeSelectionMode(true));
        true
    }

    /// The current selection.
    pub fn selection<'a>(&self, state: &'a AppState) -> (r: Option<&'a SelectionState>)
        ensures
            r matches Some(s) && *s == state.selection,
    {
        Some(&state.selection)
    }

    /// The id of the song that is playing, if any.
    pub fn current_song_id(&self, state: &AppState) -> (r: Option<String>)
        ensures
            r == state.playback.current_song_id,
    {
        state.playback.current_song_id()
    }

    /// Plays the song `id`, first loading the playlist's songs into the player
    /// where it holds something else.
    pub fn play_song(&self, state: &AppState, id: &String, d: &mut Dispatcher)
        ensures
            final(d).requests@ == old(d).requests@,
            final(d).actions@.subrange(0, old(d).actions@.len() as int) == old(d).actions@,
            final(d).actions@.len() >= old(d).actions@.len(),
            play_actions_ok(
                final(d).actions@.subrange(old(d).actions@.len() as int, final(d).actions@.len() as int),
                is_source(state.playback.source, false, self.id@),
                false,
                self.id@,
                self.spec_songs(*state),
                id@,
            ),
    {
        let holds = state.playback.is_source(false, &self.id);
        dispatch_play(holds, false, &self.id, self.songs_ref(state), id, d);
    }

    /// The list update that `event` calls for: the whole song list once the
    /// playlist is loaded, the songs from the given position on once a page
    /// was appended; nothing for any other event.
    pub fn diff_for_event(&self, state: &AppState, event: &AppEvent) -> (r: Option<ListDiff>)
        ensures
            r matches Some(x) ==> self.spec_diff(*state, *event) == Some(x@),
            r is None ==> self.spec_diff(*state, *event) is None,
    {
        match event {
            AppEvent::BrowserEvent(BrowserEvent::PlaylistDetailsLoaded(e)) => {
                if *e == self.id {
                    match self.songs_ref(state) {
                        Some(songs) => Some(ListDiff::Replace(rows_of(songs, 0))),
                        None => None,
                    }
                } else {
                    None
                }
            },
            AppEvent::BrowserEvent(BrowserEvent::PlaylistTracksAppended(e, k)) => {
                if *e == self.id {
                    match self.songs_ref(state) {
                        Some(songs) => Some(ListDiff::Append(rows_of(songs, *k))),
                        None => None,
                    }
                } else {
                    None
                }
            },
            _ => None,
        }
    }

    /// The operations offered for the loaded song `id`: view each artist,
    /// view its album, copy a link, queue it.
    pub fn actions_for(&self, state: &AppState, id: &String) -> (r: Option<Vec<SongAction>>)
        ensures
            match self.spec_song(*state, id@) {
                Some(song) => r matches Some(v) && v@ == artist_actions(song.artists@) + seq![
                    SongAction::ViewAlbum(song.album),
                ] + tail_actions(song),
                None => r is None,
            },
    {
        let songs = match self.songs_ref(state) {
            Some(s) => s,
            None => return None,
        };
        proof {
            crate::models::lemma_first_index_props(song_ids(songs@), id@);
        }
        match crate::models::find_song(songs, id) {
            Some(i) => {
                let song = &songs[i];
                let mut v: Vec<SongAction> = Vec::new();
                push_artist_actions(song, &mut v);
                v.push(SongAction::ViewAlbum(song.album.copy()));
                push_tail_actions(song, &mut v);
                assert(v@ =~= artist_actions(song.artists@) + seq![SongAction::ViewAlbum(song.album)]
                    + tail_actions(*song));
                Some(v)
            },
            None => None,
        }
    }

    /// The menu for the loaded song `id`: view its album first, then the
    /// other operations in the order `actions_for` gives them.
    pub fn menu_for(&self, state: &AppState, id: &String) -> (r: Option<Vec<SongAction>>)
        ensures
            match self.spec_song(*state, id@) {
                Some(song) => r matches Some(v) && v@ == seq![SongAction::ViewAlbum(song.album)]
                    + artist_actions(song.artists@) + tail_actions(song),
                None => r is None,
            },
    {
        let songs = match self.songs_ref(state) {
            Some(s) => s,
            None => return None,
        };
        proof {
            crate::models::lemma_first_index_props(song_ids(songs@), id@);
        }
        match crate::models::find_song(songs, id) {
            Some(i) => {
                let song = &songs[i];
                let mut v: Vec<SongAction> = Vec::new();
                v.push(SongAction::ViewAlbum(song.album.copy()));
                push_artist_actions(song, &mut v);
                push_tail_actions(song, &mut v);
                assert(v@ =~= seq![SongAction::ViewAlbum(song.album)] + artist_actions(song.artists@)
                    + tail_actions(*song));
                Some(v)
            },
            None => None,
        }
    }

    /// Runs a selection tool: its own action where it has one; for select-all,
    /// deselect every song where all are selected, else select them all.
    pub fn handle_tool_activated(
        &self,
        state: &AppState,
        selection: &SelectionState,
        tool: &SelectionTool,
        d: &mut Dispatcher,
    )
        ensures
            final(d).requests@ == old(d).requests@,
            match (tool.spec_default_action(), *tool, self.spec_songs(*state)) {
                (Some(a), _, _) => final(d).actions@ == old(d).actions@.push(a),
                (None, SelectionTool::SelectAll, Some(songs)) => final(d).actions@.len()
                    == old(d).actions@.len() + 1 && final(d).actions@.subrange(
                    0,
                    old(d).actions@.len() as int,
                ) == old(d).actions@ && select_all_action_ok(
                    final(d).actions@.last(),
                    *selection,
                    songs,
                ),
                _ => final(d).actions@ == old(d).actions@,
            },
    {
        match tool.default_action() {
            Some(a) => d.dispatch(a),
            None => match tool {
                SelectionTool::SelectAll => match self.songs_ref(state) {
                    Some(songs) => dispatch_select_all(songs, selection, d),
                    None => {},
                },
                _ => {},
            },
        }
    }
}

} // verus!
