use vstd::prelude::*;
use crate::models::{
    copy_songs, find_song, first_index, song_ids, songs_view, SongDescription, SongView,
};
use crate::state::{is_source, AppAction, PlaybackAction, PlaylistSource, SelectionAction, SelectionState};

verus! {

/// A network call that a panel model asks for; its result comes back as an
/// action (see the models' completion functions).
#[derive(Debug, Clone, PartialEq, Eq)]
pub enum ApiRequest {
    GetAlbum(String),
    SaveAlbum(String),
    RemoveSavedAlbum(String),
    GetPlaylist(String),
    GetPlaylistTracks(String, usize, usize),
}

/// What the models dispatched, in order: actions to apply at once, and
/// network calls to run in the background.
#[derive(Debug, Clone, PartialEq, Eq)]
pub struct Dispatcher {
    pub actions: Vec<AppAction>,
    pub requests: Vec<ApiRequest>,
}

impl Dispatcher {
    pub fn new() -> (r: Dispatcher)
        ensures
            r.actions@.len() == 0,
            r.requests@.len() == 0,
    {
        Dispatcher { actions: Vec::new(), requests: Vec::new() }
    }

    /// Queues an action to be applied.
    pub fn dispatch(&mut self, action: AppAction)
        ensures
            final(self).actions@ == old(self).actions@.push(action),
            final(self).requests@ == old(self).requests@,
    {
        self.actions.push(action);
    }

    /// Queues a network call to be run without blocking.
    pub fn dispatch_async(&mut self, request: ApiRequest)
        ensures
            final(self).actions@ == old(self).actions@,
            final(self).requests@ == old(self).requests@.push(request),
    {
        self.requests.push(request);
    }
}

/// `a` selects exactly the songs `songs`, in order.
pub open spec fn is_select_of(a: AppAction, songs: Seq<SongView>) -> bool {
    a matches AppAction::Selection(SelectionAction::Select(v)) && songs_view(v@) == songs
}

/// `a` deselects exactly the ids `ids`, in order.
pub open spec fn is_deselect_of(a: AppAction, ids: Seq<Seq<char>>) -> bool {
    a matches AppAction::Selection(SelectionAction::Deselect(v)) && v@.map_values(|s: String| s@)
        == ids
}

/// `a` loads `songs` into the player, tagged as the album (`is_album`) or the
/// playlist `id`.
pub open spec fn is_load_playlist_of(
    a: AppAction,
    is_album: bool,
    id: Seq<char>,
    songs: Seq<SongView>,
) -> bool {
    a matches AppAction::Playback(PlaybackAction::LoadPlaylist(src, v)) && is_source(src, is_album, id)
        && songs_view(v@) == songs
}

/// `a` starts the song `id`.
pub open spec fn is_load_of(a: AppAction, id: Seq<char>) -> bool {
    a matches AppAction::Playback(PlaybackAction::Load(s)) && s@ == id
}

/// The selection action of the select-all tool over `songs`: deselect them all
/// where all are selected, else select them all.
pub open spec fn select_all_action_ok(a: AppAction, selection: SelectionState, songs: Seq<SongDescription>) -> bool {
    if selection.spec_all_selected(song_ids(songs)) {
        is_deselect_of(a, song_ids(songs))
    } else {
        is_select_of(a, songs_view(songs))
    }
}

/// Once `s1` is what selecting the songs of `v` made of `s0`, every song of
/// `v` is selected.
pub proof fn lemma_selected_after_select(s0: SelectionState, s1: SelectionState, v: Vec<SongDescription>)
    requires
        s1.selected_set() == s0.spec_apply(SelectionAction::Select(v)),
    ensures
        s1.spec_all_selected(song_ids(v@)),
{
    assert forall|i: int| 0 <= i < song_ids(v@).len() implies s1.ids().contains(
        #[trigger] song_ids(v@)[i],
    ) by {
        assert(song_ids(v@).to_set().contains(song_ids(v@)[i]));
        assert(s1.selected_set().contains(song_ids(v@)[i]));
    }
}

/// Select-all over a non-empty list whose songs are all selected deselects
/// exactly their ids; run again on the selection that this leaves, it
/// selects the whole list.
pub proof fn lemma_select_all_toggles(
    s: SelectionState,
    s2: SelectionState,
    songs: Seq<SongDescription>,
    a: AppAction,
    a2: AppAction,
)
    requires
        songs.len() > 0,
        s.spec_all_selected(song_ids(songs)),
        select_all_action_ok(a, s, songs),
        a matches AppAction::Selection(sa) && s2.selected_set() == s.spec_apply(sa),
        select_all_action_ok(a2, s2, songs),
    ensures
        is_deselect_of(a, song_ids(songs)),
        is_select_of(a2, songs_view(songs)),
{
    let ids = song_ids(songs);
    assert(ids.to_set().contains(ids[0]));
    assert(!s2.selected_set().contains(ids[0]));
    assert(!s2.ids().contains(ids[0]));
    assert(!s2.spec_all_selected(ids));
}

/// Dispatches the select-all tool's action over `songs`.
pub fn dispatch_select_all(songs: &Vec<SongDescription>, selection: &SelectionState, d: &mut Dispatcher)
    ensures
        final(d).requests@ == old(d).requests@,
        final(d).actions@.len() == old(d).actions@.len() + 1,
        final(d).actions@.subrange(0, old(d).actions@.len() as int) == old(d).actions@,
        select_all_action_ok(final(d).actions@.last(), *selection, songs@),
{
    if selection.all_selected(songs) {
        let mut ids: Vec<String> = Vec::new();
        let mut i: usize = 0;
        while i < songs.len()
            invariant
                i <= songs@.len(),
                ids@.len() == i,
                forall|j: int| 0 <= j < i ==> #[trigger] ids@[j]@ == songs@[j].id@,
            decreases songs@.len() - i,
        {
            ids.push(songs[i].id.clone());
            i = i + 1;
        }
        assert(ids@.map_values(|s: String| s@) =~= song_ids(songs@));
        d.dispatch(AppAction::Selection(SelectionAction::Deselect(ids)));
    } else {
        d.dispatch(AppAction::Selection(SelectionAction::Select(copy_songs(songs))));
    }
    assert(final(d).actions@.subrange(0, old(d).actions@.len() as int) =~= old(d).actions@);
}

/// Dispatches the selection of the first song of `songs` with id `id`, if any.
pub fn dispatch_select_song(songs: &Vec<SongDescription>, id: &String, d: &mut Dispatcher)
    ensures
        final(d).requests@ == old(d).requests@,
        first_index(song_ids(songs@), id@) is None ==> final(d).actions@ == old(d).actions@,
        first_index(song_ids(songs@), id@) matches Some(i) ==> final(d).actions@.len() == old(
            d,
        ).actions@.len() + 1 && final(d).actions@.subrange(0, old(d).actions@.len() as int)
            == old(d).actions@ && is_select_of(final(d).actions@.last(), seq![songs@[i]@]),
{
    proof {
        crate::models::lemma_first_index_props(song_ids(songs@), id@);
    }
    match find_song(songs, id) {
        Some(i) => {
            let song = songs[i].copy();
            let v = vec![song];
            assert(songs_view(v@) =~= seq![songs@[i as int]@]);
            d.dispatch(AppAction::Selection(SelectionAction::Select(v)));
            assert(final(d).actions@.subrange(0, old(d).actions@.len() as int) =~= old(d).actions@);
        },
        None => {},
    }
}

/// The actions that playing `song` from the album (`is_album`) or playlist
/// `id` dispatches, given whether the player already holds it and the songs
/// loaded for it.
pub open spec fn play_actions_ok(
    acts: Seq<AppAction>,
    holds_source: bool,
    is_album: bool,
    id: Seq<char>,
    songs: Option<Seq<SongDescription>>,
    song: Seq<char>,
) -> bool {
    if !holds_source && songs is Some {
        acts.len() == 2 && is_load_playlist_of(acts[0], is_album, id, songs_view(songs.unwrap()))
            && is_load_of(acts[1], song)
    } else {
        acts.len() == 1 && is_load_of(acts[0], song)
    }
}

/// Dispatches the actions that play `song` from the album (`is_album`) or
/// playlist `id`, whose loaded songs are `songs`.
pub fn dispatch_play(
    holds_source: bool,
    is_album: bool,
    id: &String,
    songs: Option<&Vec<SongDescription>>,
    song: &String,
    d: &mut Dispatcher,
)
    ensures
        final(d).requests@ == old(d).requests@,
        final(d).actions@.subrange(0, old(d).actions@.len() as int) == old(d).actions@,
        final(d).actions@.len() >= old(d).actions@.len(),
        play_actions_ok(
            final(d).actions@.subrange(old(d).actions@.len() as int, final(d).actions@.len() as int),
            holds_source,
            is_album,
            id@,
            match songs {
                Some(v) => Some(v@),
                None => None,
            },
            song@,
        ),
{
    if !holds_source {
        match songs {
            Some(v) => {
                let source = if is_album {
                    PlaylistSource::Album(id.clone())
                } else {
                    PlaylistSource::Playlist(id.clone())
                };
                d.dispatch(AppAction::Playback(PlaybackAction::LoadPlaylist(Some(source), copy_songs(v))));
            },
            None => {},
        }
    }
    d.dispatch(AppAction::Playback(PlaybackAction::Load(song.clone())));
    assert(final(d).actions@.subrange(0, old(d).actions@.len() as int) =~= old(d).actions@);
}

} // verus!
