use vstd::prelude::*;

verus! {

/// A labelled time range of one source video, in milliseconds.
#[derive(Debug)]
pub struct Chapter {
    pub start_ms: u64,
    pub end_ms: u64,
    pub title: String,
}

/// What the metadata fetch reports of one video.
#[derive(Debug)]
pub struct UrlInfo {
    pub webpage_url: String,
    pub title: String,
    pub uploader: String,
    pub thumbnail: String,
    pub description: String,
    pub track: String,
    pub artist: String,
    pub album: String,
    pub playlist: Option<String>,
    pub chapters: Option<Vec<Chapter>>,
}

/// One track: where it comes from, its tags and its cover choice.
#[derive(Debug)]
pub struct Single {
    pub webpage_url: String,
    pub title: String,
    pub use_thumbnail: bool,
    pub cover_path: Option<String>,
    pub artist: String,
    pub track: String,
    pub album: String,
    pub description: String,
}

/// The track that a fetched description becomes.
pub open spec fn single_of(u: UrlInfo) -> Single {
    Single {
        webpage_url: u.webpage_url,
        title: u.title,
        use_thumbnail: true,
        cover_path: None,
        artist: u.artist,
        track: u.track,
        album: u.album,
        description: u.description,
    }
}

/// A track with every text empty, no cover picked and the thumbnail off.
pub open spec fn is_blank(s: Single) -> bool {
    &&& s.webpage_url@.len() == 0
    &&& s.title@.len() == 0
    &&& !s.use_thumbnail
    &&& s.cover_path.is_none()
    &&& s.artist@.len() == 0
    &&& s.track@.len() == 0
    &&& s.album@.len() == 0
    &&& s.description@.len() == 0
}

/// The cover path as a sequence of characters.
pub open spec fn opt_view(o: Option<String>) -> Option<Seq<char>> {
    match o {
        Some(s) => Some(s@),
        None => None,
    }
}

pub fn clone_opt(o: &Option<String>) -> (r: Option<String>)
    ensures
        r == *o,
{
    match o {
        Some(s) => Some(s.clone()),
        None => None,
    }
}

impl Single {
    pub fn from(url: UrlInfo) -> (s: Single)
        ensures
            s == single_of(url),
    {
        Single {
            webpage_url: url.webpage_url,
            title: url.title,
            use_thumbnail: true,
            cover_path: None,
            artist: url.artist,
            track: url.track,
            album: url.album,
            description: url.description,
        }
    }

    pub fn blank() -> (s: Single)
        ensures
            is_blank(s),
    {
        Single {
            webpage_url: String::new(),
            title: String::new(),
            use_thumbnail: false,
            cover_path: None,
            artist: String::new(),
            track: String::new(),
            album: String::new(),
            description: String::new(),
        }
    }
}

/// Sets the album of every track to `album`.
pub fn apply_album(songs: &mut Vec<Single>, album: &String)
    ensures
        final(songs)@.len() == old(songs)@.len(),
        forall|i: int|
            0 <= i < old(songs)@.len() ==> #[trigger] final(songs)@[i] == (Single {
                album: *album,
                ..old(songs)@[i]
            }),
{
    let n = songs.len();
    let mut i: usize = 0;
    while i < n
        invariant
            i <= n,
            n == old(songs)@.len(),
            songs@.len() == n,
            forall|k: int|
                0 <= k < i ==> #[trigger] songs@[k] == (Single { album: *album, ..old(songs)@[k] }),
            forall|k: int| i <= k < n ==> #[trigger] songs@[k] == old(songs)@[k],
        decreases n - i,
    {
        songs[i].album = album.clone();
        i = i + 1;
    }
}

/// Sets the artist of every track to `artist`.
pub fn apply_artist(songs: &mut Vec<Single>, artist: &String)
    ensures
        final(songs)@.len() == old(songs)@.len(),
        forall|i: int|
            0 <= i < old(songs)@.len() ==> #[trigger] final(songs)@[i] == (Single {
                artist: *artist,
                ..old(songs)@[i]
            }),
{
    let n = songs.len();
    let mut i: usize = 0;
    while i < n
        invariant
            i <= n,
            n == old(songs)@.len(),
            songs@.len() == n,
            forall|k: int|
                0 <= k < i ==> #[trigger] songs@[k] == (Single { artist: *artist, ..old(songs)@[k] }),
            forall|k: int| i <= k < n ==> #[trigger] songs@[k] == old(songs)@[k],
        decreases n - i,
    {
        songs[i].artist = artist.clone();
        i = i + 1;
    }
}

/// Gives every track the same cover choice.
pub fn apply_cover(songs: &mut Vec<Single>, use_thumbnail: bool, cover_path: &Option<String>)
    ensures
        final(songs)@.len() == old(songs)@.len(),
        forall|i: int|
            0 <= i < old(songs)@.len() ==> #[trigger] final(songs)@[i] == (Single {
                use_thumbnail: use_thumbnail,
                cover_path: *cover_path,
                ..old(songs)@[i]
            }),
{
    let n = songs.len();
    let mut i: usize = 0;
    while i < n
        invariant
            i <= n,
            n == old(songs)@.len(),
            songs@.len() == n,
            forall|k: int|
                0 <= k < i ==> #[trigger] songs@[k] == (Single {
                    use_thumbnail: use_thumbnail,
                    cover_path: *cover_path,
                    ..old(songs)@[k]
                }),
            forall|k: int| i <= k < n ==> #[trigger] songs@[k] == old(songs)@[k],
        decreases n - i,
    {
        songs[i].use_thumbnail = use_thumbnail;
        songs[i].cover_path = clone_opt(cover_path);
        i = i + 1;
    }
}

} // verus!
