use vstd::prelude::*;

verus! {

/// A reference to an artist, as found in a song or an album.
#[derive(Debug, Clone, PartialEq, Eq)]
pub struct ArtistRef {
    pub id: String,
    pub name: String,
}

/// A reference to the album a song belongs to.
#[derive(Debug, Clone, PartialEq, Eq)]
pub struct AlbumRef {
    pub id: String,
    pub name: String,
}

/// A reference to the user who owns a playlist.
#[derive(Debug, Clone, PartialEq, Eq)]
pub struct UserRef {
    pub id: String,
    pub display_name: String,
}

/// A song as fetched from the network; never changed once fetched.
#[derive(Debug, Clone, PartialEq, Eq)]
pub struct SongDescription {
    pub id: String,
    pub title: String,
    pub artists: Vec<ArtistRef>,
    pub album: AlbumRef,
}

/// An album with its songs.
#[derive(Debug, Clone, PartialEq, Eq)]
pub struct AlbumDescription {
    pub id: String,
    pub title: String,
    pub artists: Vec<ArtistRef>,
    pub songs: Vec<SongDescription>,
    pub is_liked: bool,
}

/// A playlist with the songs loaded so far.
#[derive(Debug, Clone, PartialEq, Eq)]
pub struct PlaylistDescription {
    pub id: String,
    pub title: String,
    pub owner: UserRef,
    pub songs: Vec<SongDescription>,
}

/// A song as shown in a list row, with its position in the list.
#[derive(Debug, Clone, PartialEq, Eq)]
pub struct SongModel {
    pub index: usize,
    pub song: SongDescription,
}

/// How a displayed list changed: replaced whole, or grown at its end.
#[derive(Debug, Clone, PartialEq, Eq)]
pub enum ListDiff {
    Replace(Vec<SongModel>),
    Append(Vec<SongModel>),
}

/// What a song holds, as plain values.
pub struct SongView {
    pub id: Seq<char>,
    pub title: Seq<char>,
    pub artists: Seq<ArtistRef>,
    pub album: AlbumRef,
}

impl View for SongDescription {
    type V = SongView;

    open spec fn view(&self) -> SongView {
        SongView { id: self.id@, title: self.title@, artists: self.artists@, album: self.album }
    }
}

/// What a row holds: its position and its song.
impl View for SongModel {
    type V = (int, SongView);

    open spec fn view(&self) -> (int, SongView) {
        (self.index as int, self.song@)
    }
}

/// A list update as plain values.
pub enum ListDiffView {
    Replace(Seq<(int, SongView)>),
    Append(Seq<(int, SongView)>),
}

impl View for ListDiff {
    type V = ListDiffView;

    open spec fn view(&self) -> ListDiffView {
        match self {
            ListDiff::Replace(v) => ListDiffView::Replace(rows_view(v@)),
            ListDiff::Append(v) => ListDiffView::Append(rows_view(v@)),
        }
    }
}

/// The views of a sequence of songs.
pub open spec fn songs_view(songs: Seq<SongDescription>) -> Seq<SongView> {
    songs.map_values(|s: SongDescription| s@)
}

/// The views of a sequence of rows.
pub open spec fn rows_view(rows: Seq<SongModel>) -> Seq<(int, SongView)> {
    rows.map_values(|m: SongModel| m@)
}

impl ArtistRef {
    pub fn copy(&self) -> (r: ArtistRef)
        ensures
            r == *self,
    {
        ArtistRef { id: self.id.clone(), name: self.name.clone() }
    }
}

impl AlbumRef {
    pub fn copy(&self) -> (r: AlbumRef)
        ensures
            r == *self,
    {
        AlbumRef { id: self.id.clone(), name: self.name.clone() }
    }
}

/// A contextual operation on one song, shown as a menu entry.
#[derive(Debug, Clone, PartialEq, Eq)]
pub enum SongAction {
    /// Open the page of one of the song's artists.
    ViewArtist(ArtistRef),
    /// Open the page of the song's album.
    ViewAlbum(AlbumRef),
    /// Copy a link to the song with this id.
    CopyLink(String),
    /// Add the song with this id to the play queue.
    Queue(String),
}

/// One view-artist operation per artist, in order.
pub open spec fn artist_actions(artists: Seq<ArtistRef>) -> Seq<SongAction> {
    artists.map_values(|a: ArtistRef| SongAction::ViewArtist(a))
}

/// The operations that close every song's list: copy a link, then queue.
pub open spec fn tail_actions(song: SongDescription) -> Seq<SongAction> {
    seq![SongAction::CopyLink(song.id), SongAction::Queue(song.id)]
}

/// Appends one view-artist operation per artist of `song` to `out`.
pub fn push_artist_actions(song: &SongDescription, out: &mut Vec<SongAction>)
    ensures
        final(out)@ == old(out)@ + artist_actions(song.artists@),
{
    let mut i: usize = 0;
    let ghost start = out@;
    while i < song.artists.len()
        invariant
            i <= song.artists@.len(),
            out@ == start + artist_actions(song.artists@.subrange(0, i as int)),
        decreases song.artists@.len() - i,
    {
        out.push(SongAction::ViewArtist(song.artists[i].copy()));
        i = i + 1;
        assert(out@ =~= start + artist_actions(song.artists@.subrange(0, i as int)));
    }
    assert(song.artists@.subrange(0, i as int) =~= song.artists@);
}

/// Appends the copy-link and queue operations for `song` to `out`.
pub fn push_tail_actions(song: &SongDescription, out: &mut Vec<SongAction>)
    ensures
        final(out)@ == old(out)@ + tail_actions(*song),
{
    out.push(SongAction::CopyLink(song.id.clone()));
    out.push(SongAction::Queue(song.id.clone()));
    assert(out@ =~= old(out)@ + tail_actions(*song));
}

/// A copy of a list of artists, element for element.
pub fn copy_artists(v: &Vec<ArtistRef>) -> (r: Vec<ArtistRef>)
    ensures
        r@ == v@,
{
    let mut r: Vec<ArtistRef> = Vec::new();
    let mut i: usize = 0;
    while i < v.len()
        invariant
            i <= v@.len(),
            r@ == v@.subrange(0, i as int),
        decreases v@.len() - i,
    {
        r.push(v[i].copy());
        i = i + 1;
        assert(r@ =~= v@.subrange(0, i as int));
    }
    assert(r@ =~= v@);
    r
}

impl SongDescription {
    pub fn copy(&self) -> (r: SongDescription)
        ensures
            r@ == self@,
    {
        SongDescription {
            id: self.id.clone(),
            title: self.title.clone(),
            artists: copy_artists(&self.artists),
            album: AlbumRef { id: self.album.id.clone(), name: self.album.name.clone() },
        }
    }

    /// The row shown for this song at position `i` of a list.
    pub fn to_song_model(&self, i: usize) -> (r: SongModel)
        ensures
            r@ == (i as int, self@),
    {
        SongModel { index: i, song: self.copy() }
    }
}

/// A copy of a list of songs, element for element.
pub fn copy_songs(v: &Vec<SongDescription>) -> (r: Vec<SongDescription>)
    ensures
        songs_view(r@) == songs_view(v@),
{
    let mut r: Vec<SongDescription> = Vec::new();
    let mut i: usize = 0;
    while i < v.len()
        invariant
            i <= v@.len(),
            r@.len() == i,
            forall|j: int| 0 <= j < i ==> #[trigger] r@[j]@ == v@[j]@,
        decreases v@.len() - i,
    {
        r.push(v[i].copy());
        i = i + 1;
    }
    assert(songs_view(r@) =~= songs_view(v@));
    r
}

/// The rows for the songs of `songs` from position `start` on, each carrying
/// its position in `songs`.
pub open spec fn rows_from(songs: Seq<SongDescription>, start: int) -> Seq<(int, SongView)> {
    let n: nat = if start <= songs.len() { (songs.len() - start) as nat } else { 0 };
    Seq::new(n, |j: int| (start + j, songs[start + j]@))
}

/// The ids of a sequence of songs, in order.
pub open spec fn song_ids(songs: Seq<SongDescription>) -> Seq<Seq<char>> {
    songs.map_values(|s: SongDescription| s.id@)
}

/// Index of the first occurrence of `id` in `ids`, if any.
pub open spec fn first_index(ids: Seq<Seq<char>>, id: Seq<char>) -> Option<int> {
    if exists|i: int| 0 <= i < ids.len() && ids[i] == id {
        Some(choose|i: int| 0 <= i < ids.len() && ids[i] == id && forall|j: int| 0 <= j < i ==> ids[j] != id)
    } else {
        None
    }
}

/// `i` is the first occurrence of `id` in `ids`.
pub proof fn lemma_first_index(ids: Seq<Seq<char>>, id: Seq<char>, i: int)
    requires
        0 <= i < ids.len(),
        ids[i] == id,
        forall|j: int| 0 <= j < i ==> ids[j] != id,
    ensures
        first_index(ids, id) == Some(i),
{
    let k = choose|k: int| 0 <= k < ids.len() && ids[k] == id && forall|j: int| 0 <= j < k ==> ids[j] != id;
    assert(0 <= k < ids.len() && ids[k] == id && forall|j: int| 0 <= j < k ==> ids[j] != id);
    if k < i {
        assert(ids[k] != id);
    } else if k > i {
        assert(ids[i] != id);
    }
}

/// What the first occurrence of `id` in `ids` is.
pub proof fn lemma_first_index_props(ids: Seq<Seq<char>>, id: Seq<char>)
    ensures
        first_index(ids, id) matches Some(i) ==> 0 <= i < ids.len() && ids[i] == id && forall|j: int|
            0 <= j < i ==> ids[j] != id,
        first_index(ids, id) is None ==> forall|j: int| 0 <= j < ids.len() ==> ids[j] != id,
{
    if exists|i: int| 0 <= i < ids.len() && ids[i] == id {
        let w = choose|i: int| 0 <= i < ids.len() && ids[i] == id;
        lemma_first_exists(ids, id, w);
    }
}

proof fn lemma_first_exists(ids: Seq<Seq<char>>, id: Seq<char>, w: int)
    requires
        0 <= w < ids.len(),
        ids[w] == id,
    ensures
        exists|i: int| 0 <= i < ids.len() && ids[i] == id && forall|j: int| 0 <= j < i ==> ids[j] != id,
    decreases w,
{
    if exists|j: int| 0 <= j < w && ids[j] == id {
        let j = choose|j: int| 0 <= j < w && ids[j] == id;
        lemma_first_exists(ids, id, j);
    } else {
        assert(0 <= w < ids.len() && ids[w] == id && forall|j: int| 0 <= j < w ==> ids[j] != id);
    }
}

/// No occurrence of `id` in `ids`.
pub proof fn lemma_no_index(ids: Seq<Seq<char>>, id: Seq<char>)
    requires
        forall|j: int| 0 <= j < ids.len() ==> ids[j] != id,
    ensures
        first_index(ids, id) is None,
{
}

/// A full list update holds every song once, in order, each at its position.
pub proof fn lemma_rows_from_start(songs: Seq<SongDescription>)
    ensures
        rows_from(songs, 0).len() == songs.len(),
        forall|i: int| 0 <= i < songs.len() ==> #[trigger] rows_from(songs, 0)[i] == (i, songs[i]@),
{
}

/// Once `fetched` was appended to `loaded`, the rows from position
/// `loaded.len()` on are exactly the fetched songs, numbered on from there
/// without gaps.
pub proof fn lemma_rows_after_append(loaded: Seq<SongDescription>, fetched: Seq<SongDescription>)
    ensures
        rows_from(loaded + fetched, loaded.len() as int) == Seq::new(
            fetched.len(),
            |j: int| (loaded.len() + j, fetched[j]@),
        ),
{
    assert(rows_from(loaded + fetched, loaded.len() as int) =~= Seq::new(
        fetched.len(),
        |j: int| (loaded.len() + j, fetched[j]@),
    ));
}

/// Rows for `songs[start..]`, each with its position in `songs`; empty when
/// `start` is past the end.
pub fn rows_of(songs: &Vec<SongDescription>, start: usize) -> (r: Vec<SongModel>)
    ensures
        rows_view(r@) == rows_from(songs@, start as int),
{
    let mut r: Vec<SongModel> = Vec::new();
    let mut i: usize = start;
    if start > songs.len() {
        assert(rows_view(r@) =~= rows_from(songs@, start as int));
        return r;
    }
    while i < songs.len()
        invariant
            start <= i <= songs@.len(),
            r@.len() == i - start,
            forall|j: int| 0 <= j < i - start ==> #[trigger] r@[j]@ == (start + j, songs@[start + j]@),
        decreases songs@.len() - i,
    {
        r.push(songs[i].to_song_model(i));
        i = i + 1;
    }
    assert(rows_view(r@) =~= rows_from(songs@, start as int));
    r
}

/// Position of the first song of `songs` with the given id.
pub fn find_song(songs: &Vec<SongDescription>, id: &String) -> (r: Option<usize>)
    ensures
        r matches Some(i) ==> first_index(song_ids(songs@), id@) == Some(i as int) && i
            < songs@.len(),
        r is None ==> first_index(song_ids(songs@), id@) is None,
{
    let mut i: usize = 0;
    while i < songs.len()
        invariant
            i <= songs@.len(),
            forall|j: int| 0 <= j < i ==> song_ids(songs@)[j] != id@,
        decreases songs@.len() - i,
    {
        if songs[i].id == *id {
            proof {
                lemma_first_index(song_ids(songs@), id@, i as int);
            }
            return Some(i);
        }
        i = i + 1;
    }
    proof {
        lemma_no_index(song_ids(songs@), id@);
    }
    None
}

} // verus!
