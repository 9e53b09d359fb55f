use vstd::prelude::*;
use crate::model::{Chapter, Single, UrlInfo, single_of, is_blank, apply_album, apply_artist, apply_cover};

verus! {

/// Independent tracks, written with an index file that keeps their order.
pub struct Playlist {
    pub playlist_title: String,
    pub songs: Vec<Single>,
    pub use_thumbnail: bool,
    pub cover_path: Option<String>,
}

/// Tracks that share album metadata and are numbered by position.
pub struct Album {
    pub album_title: String,
    pub album_artist: String,
    pub songs: Vec<Single>,
    pub use_thumbnail: bool,
    pub cover_path: Option<String>,
}

/// One video cut by chapters into the tracks of a playlist.
/// `songs[i]` is the track made from `chapters[i]`.
pub struct FullVideoPlaylist {
    pub webpage_url: String,
    pub description: String,
    pub use_thumbnail: bool,
    pub cover_path: Option<String>,
    pub playlist_title: String,
    pub songs: Vec<Single>,
    pub chapters: Vec<Chapter>,
    pub marked: Option<usize>,
}

/// One video cut by chapters into the numbered tracks of an album.
/// `songs[i]` is the track made from `chapters[i]`.
pub struct FullVideoAlbum {
    pub webpage_url: String,
    pub description: String,
    pub use_thumbnail: bool,
    pub cover_path: Option<String>,
    pub album_title: String,
    pub album_artist: String,
    pub songs: Vec<Single>,
    pub chapters: Vec<Chapter>,
    pub marked: Option<usize>,
}

/// The shape of a download: one track, a list of tracks, or one video cut by chapters.
pub enum Content {
    Single(Single),
    Playlist(Playlist),
    Album(Album),
    FullVideoPlaylist(FullVideoPlaylist),
    FullVideoAlbum(FullVideoAlbum),
}

impl Content {
    /// Every chaptered variant keeps its chapters and tracks paired.
    pub open spec fn wf(&self) -> bool {
        match self {
            Content::FullVideoPlaylist(p) => p.wf(),
            Content::FullVideoAlbum(a) => a.wf(),
            _ => true,
        }
    }
}

/// The collection title that a fetch reports on its first item, or `fallback`.
pub open spec fn collection_title(urls: Seq<UrlInfo>, fallback: Seq<char>) -> Seq<char> {
    if urls.len() > 0 && urls[0].playlist.is_some() {
        urls[0].playlist.unwrap()@
    } else {
        fallback
    }
}

pub open spec fn singles_of(urls: Seq<UrlInfo>) -> Seq<Single> {
    urls.map_values(|u: UrlInfo| single_of(u))
}

/// The track seeded from a chapter: titled after it, by `artist`, with the
/// thumbnail as cover and every other text empty.
pub open spec fn is_chapter_track(s: Single, c: Chapter, artist: Seq<char>) -> bool {
    &&& s.use_thumbnail
    &&& s.cover_path.is_none()
    &&& s.track@ == c.title@
    &&& s.artist@ == artist
    &&& s.webpage_url@.len() == 0
    &&& s.title@.len() == 0
    &&& s.album@.len() == 0
    &&& s.description@.len() == 0
}

/// The chapter that `add_chapter` appends.
pub open spec fn is_new_chapter(c: Chapter) -> bool {
    c.start_ms == 0 && c.end_ms == 0 && c.title@ == "New Chapter"@
}

/// The chapters and tracks after removing the pair at `i`, when there is one.
pub open spec fn removed_at<T>(s: Seq<T>, m: Option<usize>) -> Seq<T> {
    match m {
        Some(i) => if i < s.len() {
            s.remove(i as int)
        } else {
            s
        },
        None => s,
    }
}

/// What `Playlist::from` makes of fetched descriptions.
pub open spec fn playlist_of(p: Playlist, urls: Seq<UrlInfo>) -> bool {
    &&& p.playlist_title@ == collection_title(urls, "Playlist"@)
    &&& p.songs@ == singles_of(urls)
    &&& p.use_thumbnail
    &&& p.cover_path.is_none()
}

/// What `Album::from` makes of fetched descriptions.
pub open spec fn album_of(a: Album, urls: Seq<UrlInfo>) -> bool {
    &&& a.album_title@ == collection_title(urls, "Album"@)
    &&& urls.len() > 0 ==> a.album_artist == urls[0].artist
    &&& urls.len() == 0 ==> a.album_artist@.len() == 0
    &&& a.songs@ == singles_of(urls)
    &&& a.use_thumbnail
    &&& a.cover_path.is_none()
}

/// What `FullVideoPlaylist::from` makes of a fetched description.
pub open spec fn full_video_playlist_of(p: FullVideoPlaylist, url: UrlInfo) -> bool {
    &&& p.wf()
    &&& p.webpage_url == url.webpage_url
    &&& p.description == url.description
    &&& p.playlist_title == url.title
    &&& p.use_thumbnail
    &&& p.cover_path.is_none()
    &&& p.marked.is_none()
    &&& url.chapters.is_some() ==> p.chapters == url.chapters.unwrap()
    &&& url.chapters.is_none() ==> p.chapters@.len() == 0
    &&& forall|i: int|
            0 <= i < p.chapters@.len() ==> is_chapter_track(
                #[trigger] p.songs@[i],
                p.chapters@[i],
                Seq::empty(),
            )
}

/// What `FullVideoAlbum::from` makes of a fetched description.
pub open spec fn full_video_album_of(a: FullVideoAlbum, url: UrlInfo) -> bool {
    &&& a.wf()
    &&& a.webpage_url == url.webpage_url
    &&& a.description == url.description
    &&& a.album_title == url.title
    &&& a.album_artist == url.uploader
    &&& a.use_thumbnail
    &&& a.cover_path.is_none()
    &&& a.marked.is_none()
    &&& url.chapters.is_some() ==> a.chapters == url.chapters.unwrap()
    &&& url.chapters.is_none() ==> a.chapters@.len() == 0
    &&& forall|i: int|
            0 <= i < a.chapters@.len() ==> is_chapter_track(
                #[trigger] a.songs@[i],
                a.chapters@[i],
                url.uploader@,
            )
}

fn title_or(urls: &Vec<UrlInfo>, fallback: &str) -> (r: String)
    ensures
        r@ == collection_title(urls@, fallback@),
{
    if urls.len() > 0 {
        match &urls[0].playlist {
            Some(t) => {
                return t.clone();
            },
            None => {},
        }
    }
    String::from_str(fallback)
}

fn singles_from(urls: Vec<UrlInfo>) -> (songs: Vec<Single>)
    ensures
        songs@ == singles_of(urls@),
{
    let ghost orig = urls@;
    let mut rest = urls;
    let mut songs: Vec<Single> = Vec::new();
    while rest.len() > 0
        invariant
            songs@.len() + rest@.len() == orig.len(),
            rest@ == orig.subrange(songs@.len() as int, orig.len() as int),
            songs@ == singles_of(orig.subrange(0, songs@.len() as int)),
        decreases rest@.len(),
    {
        let ghost k = songs@.len() as int;
        let u = rest.remove(0);
        songs.push(Single::from(u));
        assert(rest@ =~= orig.subrange(k + 1, orig.len() as int));
        assert(songs@ =~= singles_of(orig.subrange(0, k + 1)));
    }
    assert(orig.subrange(0, orig.len() as int) =~= orig);
    songs
}

fn chapter_tracks(chapters: &Vec<Chapter>, artist: &String) -> (songs: Vec<Single>)
    ensures
        songs@.len() == chapters@.len(),
        forall|i: int|
            0 <= i < chapters@.len() ==> is_chapter_track(#[trigger] songs@[i], chapters@[i], artist@),
{
    let mut songs: Vec<Single> = Vec::new();
    let mut i: usize = 0;
    while i < chapters.len()
        invariant
            i <= chapters@.len(),
            songs@.len() == i,
            forall|k: int| 0 <= k < i ==> is_chapter_track(#[trigger] songs@[k], chapters@[k], artist@),
        decreases chapters@.len() - i,
    {
        let mut song = Single::blank();
        song.use_thumbnail = true;
        song.track = chapters[i].title.clone();
        song.artist = artist.clone();
        songs.push(song);
        i = i + 1;
    }
    songs
}

fn new_chapter() -> (c: Chapter)
    ensures
        is_new_chapter(c),
{
    Chapter { start_ms: 0, end_ms: 0, title: String::from_str("New Chapter") }
}

impl Playlist {
    pub fn from(urls: Vec<UrlInfo>) -> (p: Playlist)
        ensures
            playlist_of(p, urls@),
    {
        let playlist_title = title_or(&urls, "Playlist");
        Playlist { playlist_title, songs: singles_from(urls), use_thumbnail: true, cover_path: None }
    }

    /// Gives every track the playlist's cover choice.
    pub fn apply_cover(&mut self)
        ensures
            final(self).songs@.len() == old(self).songs@.len(),
            forall|i: int|
                0 <= i < old(self).songs@.len() ==> #[trigger] final(self).songs@[i] == (Single {
                    use_thumbnail: old(self).use_thumbnail,
                    cover_path: old(self).cover_path,
                    ..old(self).songs@[i]
                }),
            final(self).playlist_title == old(self).playlist_title,
            final(self).use_thumbnail == old(self).use_thumbnail,
            final(self).cover_path == old(self).cover_path,
    {
        apply_cover(&mut self.songs, self.use_thumbnail, &self.cover_path);
    }
}

impl Album {
    pub fn from(urls: Vec<UrlInfo>) -> (a: Album)
        ensures
            album_of(a, urls@),
    {
        let album_title = title_or(&urls, "Album");
        let album_artist = if urls.len() > 0 {
            urls[0].artist.clone()
        } else {
            String::new()
        };
        Album {
            album_title,
            album_artist,
            songs: singles_from(urls),
            use_thumbnail: true,
            cover_path: None,
        }
    }

    /// Sets the album of every track to the album title.
    pub fn apply_album_title(&mut self)
        ensures
            final(self).songs@.len() == old(self).songs@.len(),
            forall|i: int|
                0 <= i < old(self).songs@.len() ==> #[trigger] final(self).songs@[i] == (Single {
                    album: old(self).album_title,
                    ..old(self).songs@[i]
                }),
            final(self).album_title == old(self).album_title,
            final(self).album_artist == old(self).album_artist,
            final(self).use_thumbnail == old(self).use_thumbnail,
            final(self).cover_path == old(self).cover_path,
    {
        apply_album(&mut self.songs, &self.album_title);
    }

    /// Sets the artist of every track to the album artist.
    pub fn apply_album_artist(&mut self)
        ensures
            final(self).songs@.len() == old(self).songs@.len(),
            forall|i: int|
                0 <= i < old(self).songs@.len() ==> #[trigger] final(self).songs@[i] == (Single {
                    artist: old(self).album_artist,
                    ..old(self).songs@[i]
                }),
            final(self).album_title == old(self).album_title,
            final(self).album_artist == old(self).album_artist,
            final(self).use_thumbnail == old(self).use_thumbnail,
            final(self).cover_path == old(self).cover_path,
    {
        apply_artist(&mut self.songs, &self.album_artist);
    }

    /// Gives every track the album's cover choice.
    pub fn apply_cover(&mut self)
        ensures
            final(self).songs@.len() == old(self).songs@.len(),
            forall|i: int|
                0 <= i < old(self).songs@.len() ==> #[trigger] final(self).songs@[i] == (Single {
                    use_thumbnail: old(self).use_thumbnail,
                    cover_path: old(self).cover_path,
                    ..old(self).songs@[i]
                }),
            final(self).album_title == old(self).album_title,
            final(self).album_artist == old(self).album_artist,
            final(self).use_thumbnail == old(self).use_thumbnail,
            final(self).cover_path == old(self).cover_path,
    {
        apply_cover(&mut self.songs, self.use_thumbnail, &self.cover_path);
    }
}

impl FullVideoPlaylist {
    /// Each chapter has its track and each track its chapter, pair by pair.
    pub open spec fn wf(&self) -> bool {
        self.songs@.len() == self.chapters@.len()
    }

    pub fn from(url: UrlInfo) -> (p: FullVideoPlaylist)
        ensures
            full_video_playlist_of(p, url),
    {
        let chapters = match url.chapters {
            Some(c) => c,
            None => Vec::new(),
        };
        let songs = chapter_tracks(&chapters, &String::new());
        FullVideoPlaylist {
            webpage_url: url.webpage_url,
            description: url.description,
            use_thumbnail: true,
            cover_path: None,
            playlist_title: url.title,
            songs,
            chapters,
            marked: None,
        }
    }

    /// Appends a new chapter together with its blank track.
    pub fn add_chapter(&mut self)
        requires
            old(self).wf(),
        ensures
            final(self).wf(),
            final(self).chapters@.len() == old(self).chapters@.len() + 1,
            final(self).chapters@.drop_last() == old(self).chapters@,
            is_new_chapter(final(self).chapters@.last()),
            final(self).songs@.drop_last() == old(self).songs@,
            is_blank(final(self).songs@.last()),
            final(self).playlist_title == old(self).playlist_title,
            final(self).marked == old(self).marked,
    {
        self.chapters.push(new_chapter());
        self.songs.push(Single::blank());
        assert(self.chapters@.drop_last() =~= old(self).chapters@);
        assert(self.songs@.drop_last() =~= old(self).songs@);
    }

    /// Removes the marked chapter together with its track, and clears the mark.
    pub fn remove_marked(&mut self)
        requires
            old(self).wf(),
        ensures
            final(self).wf(),
            final(self).chapters@ == removed_at(old(self).chapters@, old(self).marked),
            final(self).songs@ == removed_at(old(self).songs@, old(self).marked),
            final(self).marked.is_none(),
            final(self).playlist_title == old(self).playlist_title,
    {
        match self.marked {
            Some(i) => {
                if i < self.chapters.len() {
                    self.chapters.remove(i);
                    self.songs.remove(i);
                }
            },
            None => {},
        }
        self.marked = None;
    }

    /// Gives every track the playlist's cover choice.
    pub fn apply_cover(&mut self)
        requires
            old(self).wf(),
        ensures
            final(self).wf(),
            forall|i: int|
                0 <= i < old(self).songs@.len() ==> #[trigger] final(self).songs@[i] == (Single {
                    use_thumbnail: old(self).use_thumbnail,
                    cover_path: old(self).cover_path,
                    ..old(self).songs@[i]
                }),
            final(self).chapters == old(self).chapters,
            final(self).playlist_title == old(self).playlist_title,
            final(self).use_thumbnail == old(self).use_thumbnail,
            final(self).cover_path == old(self).cover_path,
    {
        apply_cover(&mut self.songs, self.use_thumbnail, &self.cover_path);
    }
}

impl FullVideoAlbum {
    /// Each chapter has its track and each track its chapter, pair by pair.
    pub open spec fn wf(&self) -> bool {
        self.songs@.len() == self.chapters@.len()
    }

    pub fn from(url: UrlInfo) -> (a: FullVideoAlbum)
        ensures
            full_video_album_of(a, url),
    {
        let chapters = match url.chapters {
            Some(c) => c,
            None => Vec::new(),
        };
        let songs = chapter_tracks(&chapters, &url.uploader);
        FullVideoAlbum {
            webpage_url: url.webpage_url,
            description: url.description,
            use_thumbnail: true,
            cover_path: None,
            album_title: url.title,
            album_artist: url.uploader,
            songs,
            chapters,
            marked: None,
        }
    }

    /// Appends a new chapter together with a track that carries the album's
    /// title and artist.
    pub fn add_chapter(&mut self)
        requires
            old(self).wf(),
        ensures
            final(self).wf(),
            final(self).chapters@.len() == old(self).chapters@.len() + 1,
            final(self).chapters@.drop_last() == old(self).chapters@,
            is_new_chapter(final(self).chapters@.last()),
            final(self).songs@.drop_last() == old(self).songs@,
            final(self).songs@.last().artist == old(self).album_artist,
            final(self).songs@.last().album == old(self).album_title,
            final(self).songs@.last().track@.len() == 0,
            final(self).songs@.last().webpage_url@.len() == 0,
            final(self).songs@.last().title@.len() == 0,
            final(self).songs@.last().description@.len() == 0,
            !final(self).songs@.last().use_thumbnail,
            final(self).songs@.last().cover_path.is_none(),
            final(self).album_title == old(self).album_title,
            final(self).album_artist == old(self).album_artist,
            final(self).marked == old(self).marked,
    {
        self.chapters.push(new_chapter());
        let mut song = Single::blank();
        song.artist = self.album_artist.clone();
        song.album = self.album_title.clone();
        self.songs.push(song);
        assert(self.chapters@.drop_last() =~= old(self).chapters@);
        assert(self.songs@.drop_last() =~= old(self).songs@);
    }

    /// Removes the marked chapter together with its track, and clears the mark.
    pub fn remove_marked(&mut self)
        requires
            old(self).wf(),
        ensures
            final(self).wf(),
            final(self).chapters@ == removed_at(old(self).chapters@, old(self).marked),
            final(self).songs@ == removed_at(old(self).songs@, old(self).marked),
            final(self).marked.is_none(),
            final(self).album_title == old(self).album_title,
            final(self).album_artist == old(self).album_artist,
    {
        match self.marked {
            Some(i) => {
                if i < self.chapters.len() {
                    self.chapters.remove(i);
                    self.songs.remove(i);
                }
            },
            None => {},
        }
        self.marked = None;
    }

    /// Sets the album of every track to the album title.
    pub fn apply_album_title(&mut self)
        requires
            old(self).wf(),
        ensures
            final(self).wf(),
            forall|i: int|
                0 <= i < old(self).songs@.len() ==> #[trigger] final(self).songs@[i] == (Single {
                    album: old(self).album_title,
                    ..old(self).songs@[i]
                }),
            final(self).chapters == old(self).chapters,
            final(self).album_title == old(self).album_title,
            final(self).album_artist == old(self).album_artist,
    {
        apply_album(&mut self.songs, &self.album_title);
    }

    /// Sets the artist of every track to the album artist.
    pub fn apply_album_artist(&mut self)
        requires
            old(self).wf(),
        ensures
            final(self).wf(),
            forall|i: int|
                0 <= i < old(self).songs@.len() ==> #[trigger] final(self).songs@[i] == (Single {
                    artist: old(self).album_artist,
                    ..old(self).songs@[i]
                }),
            final(self).chapters == old(self).chapters,
            final(self).album_title == old(self).album_title,
            final(self).album_artist == old(self).album_artist,
    {
        apply_artist(&mut self.songs, &self.album_artist);
    }

    /// Gives every track the album's cover choice.
    pub fn apply_cover(&mut self)
        requires
            old(self).wf(),
        ensures
            final(self).wf(),
            forall|i: int|
                0 <= i < old(self).songs@.len() ==> #[trigger] final(self).songs@[i] == (Single {
                    use_thumbnail: old(self).use_thumbnail,
                    cover_path: old(self).cover_path,
                    ..old(self).songs@[i]
                }),
            final(self).chapters == old(self).chapters,
            final(self).album_title == old(self).album_title,
            final(self).use_thumbnail == old(self).use_thumbnail,
            final(self).cover_path == old(self).cover_path,
    {
        apply_cover(&mut self.songs, self.use_thumbnail, &self.cover_path);
    }
}

} // verus!
