use vstd::prelude::*;
use crate::models::{
    first_index, lemma_first_index, lemma_first_index_props, AlbumDescription, PlaylistDescription,
    SongDescription,
};
use crate::state::{
    album_ids, playlist_ids, AppAction, AppEvent, AppState, BrowserAction, BrowserEvent,
    BrowserState, DetailsState, NextPage, PlaybackAction, PlaylistDetailsState,
};

verus! {

/// Why a view of the shared state could not be had.
#[derive(Debug, Clone, PartialEq, Eq)]
pub enum BorrowError {
    /// A writing view is alive.
    MutablyBorrowed,
    /// Reading views are alive.
    Borrowed,
    /// The count of reading views is at its limit.
    TooManyReaders,
}

/// Runtime-checked borrow discipline for the shared state: any number of
/// reading views, or one writing view and no reading one.
#[derive(Debug, Clone, PartialEq, Eq)]
pub struct BorrowFlag {
    pub readers: usize,
    pub writing: bool,
}

impl BorrowFlag {
    /// Never a writing view beside a reading one.
    pub open spec fn wf(&self) -> bool {
        !(self.writing && self.readers > 0)
    }

    pub fn new() -> (r: BorrowFlag)
        ensures
            r.wf(),
            r.readers == 0,
            !r.writing,
    {
        BorrowFlag { readers: 0, writing: false }
    }

    /// Takes a reading view; refused while a writing view is alive.
    pub fn try_borrow(&mut self) -> (r: Result<(), BorrowError>)
        requires
            old(self).wf(),
        ensures
            final(self).wf(),
            old(self).writing ==> r == Err::<(), BorrowError>(BorrowError::MutablyBorrowed)
                && *final(self) == *old(self),
            !old(self).writing && old(self).readers == usize::MAX ==> r == Err::<(), BorrowError>(
                BorrowError::TooManyReaders,
            ) && *final(self) == *old(self),
            !old(self).writing && old(self).readers < usize::MAX ==> r is Ok && final(self).readers
                == old(self).readers + 1 && !final(self).writing,
    {
        if self.writing {
            Err(BorrowError::MutablyBorrowed)
        } else if self.readers == usize::MAX {
            Err(BorrowError::TooManyReaders)
        } else {
            self.readers = self.readers + 1;
            Ok(())
        }
    }

    /// Gives a reading view back.
    pub fn release(&mut self)
        requires
            old(self).wf(),
            old(self).readers > 0,
        ensures
            final(self).wf(),
            final(self).readers == old(self).readers - 1,
            final(self).writing == old(self).writing,
    {
        self.readers = self.readers - 1;
    }

    /// Takes the writing view; refused while any other view is alive.
    pub fn try_borrow_mut(&mut self) -> (r: Result<(), BorrowError>)
        requires
            old(self).wf(),
        ensures
            final(self).wf(),
            old(self).writing ==> r == Err::<(), BorrowError>(BorrowError::MutablyBorrowed)
                && *final(self) == *old(self),
            !old(self).writing && old(self).readers > 0 ==> r == Err::<(), BorrowError>(
                BorrowError::Borrowed,
            ) && *final(self) == *old(self),
            !old(self).writing && old(self).readers == 0 ==> r is Ok && final(self).writing
                && final(self).readers == 0,
    {
        if self.writing {
            Err(BorrowError::MutablyBorrowed)
        } else if self.readers > 0 {
            Err(BorrowError::Borrowed)
        } else {
            self.writing = true;
            Ok(())
        }
    }

    /// Gives the writing view back.
    pub fn release_mut(&mut self)
        requires
            old(self).wf(),
            old(self).writing,
        ensures
            final(self).wf(),
            !final(self).writing,
            final(self).readers == old(self).readers,
    {
        self.writing = false;
    }
}

/// How many songs one page of a playlist holds.
pub const BATCH_SIZE: usize = 50;

/// The cursor after a page of `fetched` songs arrived and `total` songs are
/// loaded: a full page means more may follow from `total` on; a short page
/// is the last.
pub open spec fn spec_next_page(total: nat, fetched: nat, batch_size: usize) -> Option<usize> {
    if fetched == batch_size && total <= usize::MAX {
        Some(total as usize)
    } else {
        None
    }
}

fn next_page(total: usize, fetched: usize, batch_size: usize) -> (r: NextPage)
    ensures
        r.next_offset == spec_next_page(total as nat, fetched as nat, batch_size),
        r.batch_size == batch_size,
{
    if fetched == batch_size {
        NextPage { next_offset: Some(total), batch_size }
    } else {
        NextPage { next_offset: None, batch_size }
    }
}

impl BrowserState {
    /// Stores the loaded album in its panel's state, making that state where
    /// there is none yet.
    pub fn set_album(&mut self, album: AlbumDescription)
        ensures
            final(self).album(album.id@) == Some(album),
            final(self).playlists == old(self).playlists,
            forall|id: Seq<char>| id != album.id@ ==> #[trigger] final(self).album(id) == old(self).album(id),
    {
        let ghost id = album.id@;
        let ghost old_ids = album_ids(self.albums@);
        proof {
            lemma_first_index_props(old_ids, id);
        }
        match self.album_index(&album.id) {
            Some(i) => {
                let key = album.id.clone();
                self.albums.set(i, DetailsState { id: key, content: Some(album) });
                assert(album_ids(self.albums@) =~= old_ids);
            },
            None => {
                let key = album.id.clone();
                self.albums.push(DetailsState { id: key, content: Some(album) });
                assert(album_ids(self.albums@) =~= old_ids.push(id));
                proof {
                    lemma_first_index(album_ids(self.albums@), id, old_ids.len() as int);
                    assert forall|other: Seq<char>| other != id implies first_index(
                        album_ids(self.albums@),
                        other,
                    ) == first_index(old_ids, other) by {
                        lemma_first_index_props(old_ids, other);
                        match first_index(old_ids, other) {
                            Some(k) => lemma_first_index(album_ids(self.albums@), other, k),
                            None => {
                                crate::models::lemma_no_index(album_ids(self.albums@), other);
                            },
                        }
                    }
                }
            },
        }
        assert forall|other: Seq<char>| other != id implies #[trigger] self.album(other) == old(self).album(other) by {
            lemma_first_index_props(old_ids, other);
            match first_index(old_ids, other) {
                Some(k) => {
                    lemma_first_index_props(album_ids(self.albums@), other);
                },
                None => {},
            }
        }
    }
}

impl BrowserState {
    /// Stores the loaded playlist in its panel's state, making that state
    /// where there is none yet; the next page starts after its songs if they
    /// filled a whole page.
    pub fn set_playlist(&mut self, playlist: PlaylistDescription)
        ensures
            final(self).playlist(playlist.id@) == Some(playlist),
            final(self).playlist_details(playlist.id@).unwrap().next_page.next_offset
                == spec_next_page(playlist.songs@.len(), playlist.songs@.len(), BATCH_SIZE),
            final(self).playlist_details(playlist.id@).unwrap().next_page.batch_size == BATCH_SIZE,
            final(self).albums == old(self).albums,
            forall|id: Seq<char>|
                id != playlist.id@ ==> #[trigger] final(self).playlist_details(id) == old(self).playlist_details(id),
    {
        let ghost id = playlist.id@;
        let ghost old_ids = playlist_ids(self.playlists@);
        proof {
            lemma_first_index_props(old_ids, id);
        }
        let n = playlist.songs.len();
        let page = next_page(n, n, BATCH_SIZE);
        let key = playlist.id.clone();
        let found = self.playlist_index(&playlist.id);
        let st = PlaylistDetailsState { id: key, playlist: Some(playlist), next_page: page };
        match found {
            Some(i) => {
                self.playlists.set(i, st);
                assert(playlist_ids(self.playlists@) =~= old_ids);
            },
            None => {
                self.playlists.push(st);
                assert(playlist_ids(self.playlists@) =~= old_ids.push(id));
                proof {
                    lemma_first_index(playlist_ids(self.playlists@), id, old_ids.len() as int);
                    assert forall|other: Seq<char>| other != id implies first_index(
                        playlist_ids(self.playlists@),
                        other,
                    ) == first_index(old_ids, other) by {
                        lemma_first_index_props(old_ids, other);
                        match first_index(old_ids, other) {
                            Some(k) => lemma_first_index(playlist_ids(self.playlists@), other, k),
                            None => {
                                crate::models::lemma_no_index(playlist_ids(self.playlists@), other);
                            },
                        }
                    }
                }
            },
        }
        assert forall|other: Seq<char>| other != id implies #[trigger] self.playlist_details(other)
            == old(self).playlist_details(other) by {
            lemma_first_index_props(old_ids, other);
            lemma_first_index_props(playlist_ids(self.playlists@), other);
        }
    }

    /// Appends a fetched page of songs to the loaded playlist `id` and moves
    /// its cursor on. Returns where the new songs start; `None`, with nothing
    /// changed, where the playlist is not loaded.
    pub fn append_playlist_tracks(&mut self, id: &String, songs: Vec<SongDescription>) -> (r: Option<usize>)
        requires
            old(self).playlist(id@) matches Some(p) ==> p.songs@.len() + songs@.len() <= usize::MAX,
        ensures
            final(self).albums == old(self).albums,
            forall|other: Seq<char>|
                other != id@ ==> #[trigger] final(self).playlist_details(other) == old(self).playlist_details(other),
            match old(self).playlist(id@) {
                None => r is None && *final(self) == *old(self),
                Some(p) => r == Some(p.songs@.len() as usize) && (final(self).playlist(id@) matches Some(
                    q,
                ) && q.id == p.id && q.title == p.title && q.owner == p.owner && q.songs@ == p.songs@
                    + songs@) && final(self).playlist_details(id@).unwrap().next_page.next_offset
                    == spec_next_page(
                    p.songs@.len() + songs@.len(),
                    songs@.len(),
                    old(self).playlist_details(id@).unwrap().next_page.batch_size,
                ) && final(self).playlist_details(id@).unwrap().next_page.batch_size == old(self).playlist_details(id@).unwrap().next_page.batch_size,
            },
    {
        let ghost old_ids = playlist_ids(self.playlists@);
        let i = match self.playlist_index(id) {
            Some(i) => i,
            None => return None,
        };
        if self.playlists[i].playlist.is_none() {
            return None;
        }
        let fetched = songs.len();
        let st = &mut self.playlists[i];
        let start = match &mut st.playlist {
            Some(p) => {
                let start = p.songs.len();
                let mut songs = songs;
                p.songs.append(&mut songs);
                start
            },
            None => 0,
        };
        let total = start + fetched;
        st.next_page = next_page(total, fetched, st.next_page.batch_size);
        assert(playlist_ids(self.playlists@) =~= old_ids);
        proof {
            assert forall|other: Seq<char>| other != id@ implies #[trigger] self.playlist_details(other)
                == old(self).playlist_details(other) by {
                lemma_first_index_props(old_ids, other);
                lemma_first_index_props(old_ids, id@);
            }
        }
        Some(start)
    }
}

impl BrowserState {
    /// Marks the loaded album `id` as not saved; nothing where it is not loaded.
    pub fn set_album_unsaved(&mut self, id: &String)
        ensures
            final(self).playlists == old(self).playlists,
            forall|other: Seq<char>|
                other != id@ ==> #[trigger] final(self).album(other) == old(self).album(other),
            match old(self).album(id@) {
                None => *final(self) == *old(self),
                Some(a) => final(self).album(id@) matches Some(b) && b.id == a.id && b.title == a.title
                    && b.artists == a.artists && b.songs == a.songs && !b.is_liked,
            },
    {
        let ghost old_ids = album_ids(self.albums@);
        let i = match self.album_index(id) {
            Some(i) => i,
            None => return ,
        };
        if self.albums[i].content.is_none() {
            return ;
        }
        let st = &mut self.albums[i];
        match &mut st.content {
            Some(a) => {
                a.is_liked = false;
            },
            None => {},
        }
        assert(album_ids(self.albums@) =~= old_ids);
        proof {
            assert forall|other: Seq<char>| other != id@ implies #[trigger] self.album(other) == old(self).album(other) by {
                lemma_first_index_props(old_ids, other);
                lemma_first_index_props(old_ids, id@);
            }
        }
    }
}

impl AppState {
    /// Applies an action to the state and returns the events that describe
    /// what changed. Navigation and queueing are carried out elsewhere and
    /// change nothing here.
    pub fn apply(&mut self, action: AppAction) -> (events: Vec<AppEvent>)
        requires
            old(self).selection.wf(),
            action matches AppAction::Browser(BrowserAction::AppendPlaylistTracks(id, v)) ==> (
            old(self).browser.playlist(id@) matches Some(p) ==> p.songs@.len() + v@.len()
                <= usize::MAX),
        ensures
            final(self).selection.wf(),
            action is Browser ==> final(self).playback == old(self).playback && final(self).selection
                == old(self).selection,
            action is Selection ==> final(self).browser == old(self).browser && final(self).playback
                == old(self).playback,
            action is Playback ==> final(self).browser == old(self).browser && final(self).selection
                == old(self).selection,
            match action {
                AppAction::Browser(BrowserAction::SetAlbumDetails(a)) => final(self).browser.album(a.id@)
                    == Some(a) && final(self).browser.playlists == old(self).browser.playlists && (forall|
                    id: Seq<char>,
                |
                    id != a.id@ ==> #[trigger] final(self).browser.album(id) == old(self).browser.album(id))
                    && events@ == seq![AppEvent::BrowserEvent(BrowserEvent::AlbumDetailsLoaded(a.id))],
                AppAction::Browser(BrowserAction::SaveAlbum(a)) => final(self).browser.album(a.id@)
                    == Some(a) && final(self).browser.playlists == old(self).browser.playlists && (forall|
                    id: Seq<char>,
                |
                    id != a.id@ ==> #[trigger] final(self).browser.album(id) == old(self).browser.album(id))
                    && events@ == seq![AppEvent::BrowserEvent(BrowserEvent::AlbumSaved(a.id))],
                AppAction::Browser(BrowserAction::UnsaveAlbum(id)) => (match old(self).browser.album(id@) {
                    None => *final(self) == *old(self),
                    Some(a) => final(self).browser.album(id@) matches Some(b) && b.id == a.id && b.title
                        == a.title && b.artists == a.artists && b.songs == a.songs && !b.is_liked,
                }) && final(self).browser.playlists == old(self).browser.playlists && (forall|
                    other: Seq<char>,
                |
                    other != id@ ==> #[trigger] final(self).browser.album(other) == old(self).browser.album(
                        other,
                    )) && events@ == seq![AppEvent::BrowserEvent(BrowserEvent::AlbumUnsaved(id))],
                AppAction::Browser(BrowserAction::SetPlaylistDetails(p)) => final(self).browser.playlist(
                    p.id@,
                ) == Some(p) && final(self).browser.albums == old(self).browser.albums && (forall|
                    id: Seq<char>,
                |
                    id != p.id@ ==> #[trigger] final(self).browser.playlist_details(id) == old(
                        self,
                    ).browser.playlist_details(id)) && events@ == seq![
                    AppEvent::BrowserEvent(BrowserEvent::PlaylistDetailsLoaded(p.id)),
                ],
                AppAction::Browser(BrowserAction::AppendPlaylistTracks(id, v)) => match old(self).browser.playlist(id@) {
                    None => *final(self) == *old(self) && events@.len() == 0,
                    Some(p) => (final(self).browser.playlist(id@) matches Some(q) && q.id == p.id && q.title
                        == p.title && q.owner == p.owner && q.songs@ == p.songs@ + v@)
                        && final(self).browser.albums == old(self).browser.albums && (forall|
                        other: Seq<char>,
                    |
                        other != id@ ==> #[trigger] final(self).browser.playlist_details(other) == old(
                            self,
                        ).browser.playlist_details(other)) && events@ == seq![
                        AppEvent::BrowserEvent(
                            BrowserEvent::PlaylistTracksAppended(id, p.songs@.len() as usize),
                        ),
                    ],
                },
                AppAction::Selection(sa) => final(self).selection.selected_set() == old(self).selection.spec_apply(sa)
                    && events@ == seq![AppEvent::SelectionChanged],
                AppAction::Playback(PlaybackAction::LoadPlaylist(src, _)) => final(self).playback.source
                    == src && final(self).playback.current_song_id == old(self).playback.current_song_id
                    && events@ == seq![AppEvent::PlaylistChanged],
                AppAction::Playback(PlaybackAction::Load(id)) => final(self).playback.current_song_id
                    == Some(id) && final(self).playback.source == old(self).playback.source && events@
                    == seq![AppEvent::TrackChanged(id)],
                AppAction::ChangeSelectionMode(on) => *final(self) == *old(self) && events@ == seq![
                    AppEvent::SelectionModeChanged(on),
                ],
                _ => *final(self) == *old(self) && events@.len() == 0,
            },
    {
        match action {
            AppAction::Browser(BrowserAction::SetAlbumDetails(a)) => {
                let id = a.id.clone();
                self.browser.set_album(a);
                vec![AppEvent::BrowserEvent(BrowserEvent::AlbumDetailsLoaded(id))]
            },
            AppAction::Browser(BrowserAction::SaveAlbum(a)) => {
                let id = a.id.clone();
                self.browser.set_album(a);
                vec![AppEvent::BrowserEvent(BrowserEvent::AlbumSaved(id))]
            },
            AppAction::Browser(BrowserAction::UnsaveAlbum(id)) => {
                self.browser.set_album_unsaved(&id);
                vec![AppEvent::BrowserEvent(BrowserEvent::AlbumUnsaved(id))]
            },
            AppAction::Browser(BrowserAction::SetPlaylistDetails(p)) => {
                let id = p.id.clone();
                self.browser.set_playlist(p);
                vec![AppEvent::BrowserEvent(BrowserEvent::PlaylistDetailsLoaded(id))]
            },
            AppAction::Browser(BrowserAction::AppendPlaylistTracks(id, v)) => {
                match self.browser.append_playlist_tracks(&id, v) {
                    Some(start) => vec![
                        AppEvent::BrowserEvent(BrowserEvent::PlaylistTracksAppended(id, start)),
                    ],
                    None => Vec::new(),
                }
            },
            AppAction::Selection(sa) => {
                self.selection.apply(&sa);
                vec![AppEvent::SelectionChanged]
            },
            AppAction::Playback(PlaybackAction::LoadPlaylist(src, _)) => {
                self.playback.source = src;
                vec![AppEvent::PlaylistChanged]
            },
            AppAction::Playback(PlaybackAction::Load(id)) => {
                let ev = AppEvent::TrackChanged(id.clone());
                self.playback.current_song_id = Some(id);
                vec![ev]
            },
            AppAction::ChangeSelectionMode(on) => vec![AppEvent::SelectionModeChanged(on)],
            _ => Vec::new(),
        }
    }
}

} // verus!
