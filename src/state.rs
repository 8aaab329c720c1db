use vstd::prelude::*;
use crate::models::{
    first_index, lemma_first_index, lemma_no_index, song_ids, AlbumDescription,
    PlaylistDescription, SongDescription,
};

verus! {

/// What is loaded into the player: an album's or a playlist's songs.
#[derive(Debug, Clone, PartialEq, Eq)]
pub enum PlaylistSource {
    Album(String),
    Playlist(String),
}

/// What the player plays.
#[derive(Debug, Clone, PartialEq, Eq)]
pub struct PlaybackState {
    pub source: Option<PlaylistSource>,
    pub current_song_id: Option<String>,
}

/// The ids of the selected songs, each at most once.
#[derive(Debug, Clone, PartialEq, Eq)]
pub struct SelectionState {
    pub selected: Vec<String>,
}

/// Where the next page of a playlist's songs starts, and how many to fetch.
#[derive(Debug, Clone, PartialEq, Eq)]
pub struct NextPage {
    pub next_offset: Option<usize>,
    pub batch_size: usize,
}

/// The state of an album's detail panel.
#[derive(Debug, Clone, PartialEq, Eq)]
pub struct DetailsState {
    pub id: String,
    pub content: Option<AlbumDescription>,
}

/// The state of a playlist's detail panel.
#[derive(Debug, Clone, PartialEq, Eq)]
pub struct PlaylistDetailsState {
    pub id: String,
    pub playlist: Option<PlaylistDescription>,
    pub next_page: NextPage,
}

/// The detail panels' states, each kind keyed by entity id.
#[derive(Debug, Clone, PartialEq, Eq)]
pub struct BrowserState {
    pub albums: Vec<DetailsState>,
    pub playlists: Vec<PlaylistDetailsState>,
}

/// The whole application state.
#[derive(Debug, Clone, PartialEq, Eq)]
pub struct AppState {
    pub browser: BrowserState,
    pub playback: PlaybackState,
    pub selection: SelectionState,
}

/// Intents that change the detail panels' states.
#[derive(Debug, Clone, PartialEq, Eq)]
pub enum BrowserAction {
    SetAlbumDetails(AlbumDescription),
    SaveAlbum(AlbumDescription),
    UnsaveAlbum(String),
    SetPlaylistDetails(PlaylistDescription),
    AppendPlaylistTracks(String, Vec<SongDescription>),
}

/// Intents that change what the player plays.
#[derive(Debug, Clone, PartialEq, Eq)]
pub enum PlaybackAction {
    LoadPlaylist(Option<PlaylistSource>, Vec<SongDescription>),
    Load(String),
}

/// Intents that change the selection.
#[derive(Debug, Clone, PartialEq, Eq)]
pub enum SelectionAction {
    Select(Vec<SongDescription>),
    Deselect(Vec<String>),
}

/// Every intent a panel model can dispatch.
#[derive(Debug, Clone, PartialEq, Eq)]
pub enum AppAction {
    ViewArtist(String),
    ViewUser(String),
    ChangeSelectionMode(bool),
    QueueSelection,
    Browser(BrowserAction),
    Playback(PlaybackAction),
    Selection(SelectionAction),
}

/// Facts about the detail panels' states.
#[derive(Debug, Clone, PartialEq, Eq)]
pub enum BrowserEvent {
    AlbumDetailsLoaded(String),
    AlbumSaved(String),
    AlbumUnsaved(String),
    PlaylistDetailsLoaded(String),
    PlaylistTracksAppended(String, usize),
}

/// Facts about a change that was applied to the state.
#[derive(Debug, Clone, PartialEq, Eq)]
pub enum AppEvent {
    BrowserEvent(BrowserEvent),
    SelectionChanged,
    SelectionModeChanged(bool),
    PlaylistChanged,
    TrackChanged(String),
}

/// The entity id that `event` is about, if it is about one.
pub open spec fn event_entity(event: AppEvent) -> Option<Seq<char>> {
    match event {
        AppEvent::BrowserEvent(BrowserEvent::AlbumDetailsLoaded(id)) => Some(id@),
        AppEvent::BrowserEvent(BrowserEvent::AlbumSaved(id)) => Some(id@),
        AppEvent::BrowserEvent(BrowserEvent::AlbumUnsaved(id)) => Some(id@),
        AppEvent::BrowserEvent(BrowserEvent::PlaylistDetailsLoaded(id)) => Some(id@),
        AppEvent::BrowserEvent(BrowserEvent::PlaylistTracksAppended(id, _)) => Some(id@),
        _ => None,
    }
}

/// The tools offered while songs are selected.
#[derive(Debug, Clone, PartialEq, Eq)]
pub enum SelectionTool {
    SelectAll,
    AddToQueue,
    MoveUp,
    MoveDown,
    Remove,
}

impl SelectionTool {
    /// The action that a tool stands for by itself, if it has one.
    pub open spec fn spec_default_action(&self) -> Option<AppAction> {
        match self {
            SelectionTool::AddToQueue => Some(AppAction::QueueSelection),
            _ => None,
        }
    }

    pub fn default_action(&self) -> (r: Option<AppAction>)
        ensures
            r == self.spec_default_action(),
    {
        match self {
            SelectionTool::AddToQueue => Some(AppAction::QueueSelection),
            _ => None,
        }
    }
}

/// The source is the album (`is_album`) or the playlist with id `id`.
pub open spec fn is_source(source: Option<PlaylistSource>, is_album: bool, id: Seq<char>) -> bool {
    match source {
        Some(PlaylistSource::Album(a)) => is_album && a@ == id,
        Some(PlaylistSource::Playlist(p)) => !is_album && p@ == id,
        None => false,
    }
}

impl PlaybackState {
    /// Whether the player holds the album (`is_album`) or the playlist `id`.
    pub fn is_source(&self, is_album: bool, id: &String) -> (r: bool)
        ensures
            r == is_source(self.source, is_album, id@),
    {
        match &self.source {
            Some(PlaylistSource::Album(a)) => is_album && *a == *id,
            Some(PlaylistSource::Playlist(p)) => !is_album && *p == *id,
            None => false,
        }
    }

    /// The id of the song that is playing, if any.
    pub fn current_song_id(&self) -> (r: Option<String>)
        ensures
            r == self.current_song_id,
    {
        match &self.current_song_id {
            Some(id) => Some(id.clone()),
            None => None,
        }
    }
}

impl SelectionState {
    /// The ids of the selected songs.
    pub open spec fn ids(&self) -> Seq<Seq<char>> {
        self.selected@.map_values(|s: String| s@)
    }

    /// Each id is selected at most once.
    pub open spec fn wf(&self) -> bool {
        self.ids().no_duplicates()
    }

    /// Every id of `ids` is selected.
    pub open spec fn spec_all_selected(&self, ids: Seq<Seq<char>>) -> bool {
        forall|i: int| 0 <= i < ids.len() ==> self.ids().contains(#[trigger] ids[i])
    }

    /// The set of selected ids.
    pub open spec fn selected_set(&self) -> Set<Seq<char>> {
        self.ids().to_set()
    }

    /// The selected ids after `action`.
    pub open spec fn spec_apply(&self, action: SelectionAction) -> Set<Seq<char>> {
        match action {
            SelectionAction::Select(v) => self.selected_set().union(song_ids(v@).to_set()),
            SelectionAction::Deselect(v) => self.selected_set().difference(
                v@.map_values(|s: String| s@).to_set(),
            ),
        }
    }

    /// Applies a selection action: `Select` adds the songs' ids, `Deselect`
    /// removes the given ids.
    pub fn apply(&mut self, action: &SelectionAction)
        requires
            old(self).wf(),
        ensures
            final(self).wf(),
            final(self).selected_set() == old(self).spec_apply(*action),
    {
        match action {
            SelectionAction::Select(songs) => {
                let mut i: usize = 0;
                while i < songs.len()
                    invariant
                        i <= songs@.len(),
                        self.wf(),
                        self.selected_set() == old(self).selected_set().union(
                            song_ids(songs@.subrange(0, i as int)).to_set(),
                        ),
                    decreases songs@.len() - i,
                {
                    let ghost before = self.ids();
                    if !self.is_selected(&songs[i].id) {
                        self.selected.push(songs[i].id.clone());
                        assert(self.ids() =~= before.push(songs@[i as int].id@));
                        assert(self.ids().no_duplicates()) by {
                            assert forall|a: int, b: int|
                                0 <= a < self.ids().len() && 0 <= b < self.ids().len() && a != b
                                implies self.ids()[a] != self.ids()[b] by {
                                if a < before.len() && b < before.len() {
                                } else if a < before.len() {
                                    assert(before.contains(before[a]));
                                } else {
                                    assert(before.contains(before[b]));
                                }
                            }
                        }
                    }
                    proof {
                        before.lemma_push_to_set_commute(songs@[i as int].id@);
                        song_ids(songs@.subrange(0, i as int)).lemma_push_to_set_commute(songs@[i as int].id@);
                    }
                    i = i + 1;
                    assert(song_ids(songs@.subrange(0, i as int)) =~= song_ids(
                        songs@.subrange(0, i - 1 as int),
                    ).push(songs@[i - 1].id@));
                    assert(self.selected_set() =~= old(self).selected_set().union(
                        song_ids(songs@.subrange(0, i as int)).to_set(),
                    ));
                }
                assert(songs@.subrange(0, i as int) =~= songs@);
            },
            SelectionAction::Deselect(ids) => {
                let ghost gone = ids@.map_values(|s: String| s@).to_set();
                let mut kept: Vec<String> = Vec::new();
                let mut i: usize = 0;
                while i < self.selected.len()
                    invariant
                        i <= self.selected@.len(),
                        self.wf(),
                        gone == ids@.map_values(|s: String| s@).to_set(),
                        kept@.map_values(|s: String| s@).no_duplicates(),
                        kept@.map_values(|s: String| s@).to_set() == self.ids().subrange(
                            0,
                            i as int,
                        ).to_set().difference(gone),
                    decreases self.selected@.len() - i,
                {
                    let ghost kv = kept@.map_values(|s: String| s@);
                    let ghost pre = self.ids().subrange(0, i as int);
                    let x = &self.selected[i];
                    let mut found = false;
                    let mut j: usize = 0;
                    while j < ids.len()
                        invariant
                            j <= ids@.len(),
                            found == exists|k: int| 0 <= k < j && ids@[k]@ == x@,
                        decreases ids@.len() - j,
                    {
                        if ids[j] == *x {
                            found = true;
                        }
                        j = j + 1;
                    }
                    assert(found == gone.contains(x@)) by {
                        let gv = ids@.map_values(|s: String| s@);
                        if gone.contains(x@) {
                            assert(gv.contains(x@));
                            let k = choose|k: int| 0 <= k < gv.len() && #[trigger] gv[k] == x@;
                            assert(ids@[k]@ == x@);
                        }
                        if found {
                            let k = choose|k: int| 0 <= k < j && ids@[k]@ == x@;
                            assert(gv[k] == x@);
                        }
                    }
                    if !found {
                        kept.push(x.clone());
                        assert(kept@.map_values(|s: String| s@) =~= kv.push(x@));
                        assert(!pre.contains(x@)) by {
                            if pre.contains(x@) {
                                let k = choose|k: int| 0 <= k < pre.len() && pre[k] == x@;
                                assert(self.ids()[k] == self.ids()[i as int]);
                            }
                        }
                        assert(kept@.map_values(|s: String| s@).no_duplicates()) by {
                            assert forall|a: int, b: int|
                                0 <= a < kv.len() + 1 && 0 <= b < kv.len() + 1 && a != b
                                implies kv.push(x@)[a] != kv.push(x@)[b] by {
                                if a < kv.len() && b < kv.len() {
                                } else if a < kv.len() {
                                    assert(kv.to_set().contains(kv[a]));
                                } else {
                                    assert(kv.to_set().contains(kv[b]));
                                }
                            }
                        }
                    }
                    proof {
                        pre.lemma_push_to_set_commute(x@);
                        kv.lemma_push_to_set_commute(x@);
                    }
                    i = i + 1;
                    assert(self.ids().subrange(0, i as int) =~= pre.push(x@));
                    assert(kept@.map_values(|s: String| s@).to_set() =~= self.ids().subrange(
                        0,
                        i as int,
                    ).to_set().difference(gone));
                }
                assert(self.ids().subrange(0, i as int) =~= self.ids());
                self.selected = kept;
            },
        }
    }

    pub fn new() -> (r: SelectionState)
        ensures
            r.wf(),
            r.ids().len() == 0,
    {
        let r = SelectionState { selected: Vec::new() };
        assert(r.ids() =~= Seq::<Seq<char>>::empty());
        r
    }

    pub fn is_selected(&self, id: &String) -> (r: bool)
        ensures
            r == self.ids().contains(id@),
    {
        let mut i: usize = 0;
        while i < self.selected.len()
            invariant
                i <= self.selected@.len(),
                forall|j: int| 0 <= j < i ==> self.ids()[j] != id@,
            decreases self.selected@.len() - i,
        {
            if self.selected[i] == *id {
                assert(self.ids()[i as int] == id@);
                return true;
            }
            i = i + 1;
        }
        false
    }

    /// Whether every song of `songs` is selected.
    pub fn all_selected(&self, songs: &Vec<SongDescription>) -> (r: bool)
        ensures
            r == self.spec_all_selected(song_ids(songs@)),
    {
        let mut i: usize = 0;
        while i < songs.len()
            invariant
                i <= songs@.len(),
                forall|j: int| 0 <= j < i ==> self.ids().contains(#[trigger] song_ids(songs@)[j]),
            decreases songs@.len() - i,
        {
            if !self.is_selected(&songs[i].id) {
                assert(!self.ids().contains(song_ids(songs@)[i as int]));
                return false;
            }
            i = i + 1;
        }
        true
    }
}

/// The ids of the album panels' states, in order.
pub open spec fn album_ids(albums: Seq<DetailsState>) -> Seq<Seq<char>> {
    albums.map_values(|d: DetailsState| d.id@)
}

/// The ids of the playlist panels' states, in order.
pub open spec fn playlist_ids(playlists: Seq<PlaylistDetailsState>) -> Seq<Seq<char>> {
    playlists.map_values(|d: PlaylistDetailsState| d.id@)
}

impl BrowserState {
    /// The album panel's state for `id`, if one was made.
    pub open spec fn album_details(&self, id: Seq<char>) -> Option<DetailsState> {
        match first_index(album_ids(self.albums@), id) {
            Some(i) => Some(self.albums@[i]),
            None => None,
        }
    }

    /// The playlist panel's state for `id`, if one was made.
    pub open spec fn playlist_details(&self, id: Seq<char>) -> Option<PlaylistDetailsState> {
        match first_index(playlist_ids(self.playlists@), id) {
            Some(i) => Some(self.playlists@[i]),
            None => None,
        }
    }

    /// The album loaded for `id`, if any.
    pub open spec fn album(&self, id: Seq<char>) -> Option<AlbumDescription> {
        match self.album_details(id) {
            Some(d) => d.content,
            None => None,
        }
    }

    /// The playlist loaded for `id`, if any.
    pub open spec fn playlist(&self, id: Seq<char>) -> Option<PlaylistDescription> {
        match self.playlist_details(id) {
            Some(d) => d.playlist,
            None => None,
        }
    }

    /// Position of the album panel's state for `id`.
    pub fn album_index(&self, id: &String) -> (r: Option<usize>)
        ensures
            r matches Some(i) ==> first_index(album_ids(self.albums@), id@) == Some(i as int) && i
                < self.albums@.len(),
            r is None ==> first_index(album_ids(self.albums@), id@) is None,
    {
        let mut i: usize = 0;
        while i < self.albums.len()
            invariant
                i <= self.albums@.len(),
                forall|j: int| 0 <= j < i ==> album_ids(self.albums@)[j] != id@,
            decreases self.albums@.len() - i,
        {
            if self.albums[i].id == *id {
                proof {
                    lemma_first_index(album_ids(self.albums@), id@, i as int);
                }
                return Some(i);
            }
            i = i + 1;
        }
        proof {
            lemma_no_index(album_ids(self.albums@), id@);
        }
        None
    }

    /// Position of the playlist panel's state for `id`.
    pub fn playlist_index(&self, id: &String) -> (r: Option<usize>)
        ensures
            r matches Some(i) ==> first_index(playlist_ids(self.playlists@), id@) == Some(i as int)
                && i < self.playlists@.len(),
            r is None ==> first_index(playlist_ids(self.playlists@), id@) is None,
    {
        let mut i: usize = 0;
        while i < self.playlists.len()
            invariant
                i <= self.playlists@.len(),
                forall|j: int| 0 <= j < i ==> playlist_ids(self.playlists@)[j] != id@,
            decreases self.playlists@.len() - i,
        {
            if self.playlists[i].id == *id {
                proof {
                    lemma_first_index(playlist_ids(self.playlists@), id@, i as int);
                }
                return Some(i);
            }
            i = i + 1;
        }
        proof {
            lemma_no_index(playlist_ids(self.playlists@), id@);
        }
        None
    }
}

} // verus!
