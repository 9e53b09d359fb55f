use vstd::prelude::*;
use crate::model::{Chapter, Single};
use crate::content::{Content, Playlist, Album, FullVideoPlaylist, FullVideoAlbum};
use crate::steps::{Step, StepView, views, texts, index_text, index_contents};
use crate::text::{join, join_path};
use crate::sanitize::{sanitize, sanitized};
use crate::plan::{
    joined_stem,
    full_stem,
    template_of,
    track_plan,
    tracks_plan,
    chapters_plan,
    track_paths,
    song_stem,
    stem,
    track_steps,
    chapter_steps,
    suffixed,
};

verus! {

pub open spec fn singles_dir(base: Seq<char>) -> Seq<char> {
    join_path(base, "singles"@)
}

/// A playlist's directory: its title, sanitised, under `playlists`.
pub open spec fn playlist_dir(base: Seq<char>, title: Seq<char>) -> Seq<char> {
    join_path(join_path(base, "playlists"@), sanitized(title))
}

/// An album's directory: its title, as it is, under `albums`.
pub open spec fn album_dir(base: Seq<char>, title: Seq<char>) -> Seq<char> {
    join_path(join_path(base, "albums"@), title)
}

/// The index file of a playlist, named after its sanitised title.
pub open spec fn index_path(dir: Seq<char>, title: Seq<char>) -> Seq<char> {
    join_path(dir, sanitized(title) + ".m3u8"@)
}

pub open spec fn single_plan(s: Single, base: Seq<char>) -> Seq<StepView> {
    track_plan(s, singles_dir(base), joined_stem(s.track@, s.artist@), None).push(
        StepView::Cleanup { dir: singles_dir(base) },
    )
}

pub open spec fn playlist_plan(p: Playlist, base: Seq<char>) -> Seq<StepView> {
    let dir = playlist_dir(base, p.playlist_title@);
    let n = p.songs@.len() as int;
    tracks_plan(p.songs@, dir, true, false, n) + seq![
        StepView::WriteIndex {
            path: index_path(dir, p.playlist_title@),
            contents: index_text(track_paths(p.songs@, dir, true, n)),
        },
        StepView::Cleanup { dir },
    ]
}

pub open spec fn album_plan(a: Album, base: Seq<char>) -> Seq<StepView> {
    let dir = album_dir(base, a.album_title@);
    tracks_plan(a.songs@, dir, false, true, a.songs@.len() as int).push(StepView::Cleanup { dir })
}

pub open spec fn full_video_playlist_plan(p: FullVideoPlaylist, base: Seq<char>) -> Seq<StepView> {
    let dir = playlist_dir(base, p.playlist_title@);
    let full = full_stem(sanitized(p.playlist_title@));
    let n = p.songs@.len() as int;
    seq![
        StepView::Acquire {
            url: p.webpage_url@,
            template: template_of(full),
            dir,
            thumbnail: p.use_thumbnail,
        },
    ] + chapters_plan(p.songs@, p.chapters@, dir, full, true, false, n) + seq![
        StepView::WriteIndex {
            path: index_path(dir, p.playlist_title@),
            contents: index_text(track_paths(p.songs@, dir, true, n)),
        },
        StepView::Cleanup { dir },
    ]
}

pub open spec fn full_video_album_plan(a: FullVideoAlbum, base: Seq<char>) -> Seq<StepView> {
    let dir = album_dir(base, a.album_title@);
    let full = full_stem(a.album_title@);
    seq![
        StepView::Acquire {
            url: a.webpage_url@,
            template: template_of(full),
            dir,
            thumbnail: a.use_thumbnail,
        },
    ] + chapters_plan(a.songs@, a.chapters@, dir, full, false, true, a.songs@.len() as int)
        + seq![StepView::Cleanup { dir }]
}

pub open spec fn content_plan(c: Content, base: Seq<char>) -> Seq<StepView> {
    match c {
        Content::Single(s) => single_plan(s, base),
        Content::Playlist(p) => playlist_plan(p, base),
        Content::Album(a) => album_plan(a, base),
        Content::FullVideoPlaylist(p) => full_video_playlist_plan(p, base),
        Content::FullVideoAlbum(a) => full_video_album_plan(a, base),
    }
}

fn song_stem_of(s: &Single, clean: bool) -> (r: String)
    ensures
        r@ == song_stem(*s, clean),
{
    if clean {
        let t = sanitize(s.track.as_str());
        let a = sanitize(s.artist.as_str());
        stem(t.as_str(), a.as_str())
    } else {
        stem(s.track.as_str(), s.artist.as_str())
    }
}

/// The work for every track of a list, each downloaded on its own, and
/// their audio files in order.
fn plan_tracks(songs: &Vec<Single>, dir: &str, clean: bool, numbered: bool) -> (r: (
    Vec<Step>,
    Vec<String>,
))
    ensures
        views(r.0@) == tracks_plan(songs@, dir@, clean, numbered, songs@.len() as int),
        texts(r.1@) == track_paths(songs@, dir@, clean, songs@.len() as int),
{
    let mut steps: Vec<Step> = Vec::new();
    let mut paths: Vec<String> = Vec::new();
    let mut i: usize = 0;
    while i < songs.len()
        invariant
            i <= songs@.len(),
            views(steps@) == tracks_plan(songs@, dir@, clean, numbered, i as int),
            texts(paths@) == track_paths(songs@, dir@, clean, i as int),
        decreases songs@.len() - i,
    {
        let song = &songs[i];
        let name = song_stem_of(song, clean);
        let track_no = if numbered {
            Some(i + 1)
        } else {
            None
        };
        let ghost before = steps@;
        let mut more = track_steps(song, dir, name.as_str(), track_no);
        let ghost added = more@;
        steps.append(&mut more);
        assert(views(steps@) =~= views(before) + views(added));
        let mp3 = suffixed(name.as_str(), ".mp3");
        let path = join(dir, mp3.as_str());
        let ghost paths_before = paths@;
        paths.push(path);
        assert(texts(paths@) =~= texts(paths_before).push(path@));
        assert(texts(paths@) =~= track_paths(songs@, dir@, clean, i + 1));
        i = i + 1;
    }
    (steps, paths)
}

/// The work for every chapter of a full download, and the tracks' audio
/// files in order.
fn plan_chapters(
    songs: &Vec<Single>,
    chapters: &Vec<Chapter>,
    dir: &str,
    full: &str,
    clean: bool,
    numbered: bool,
) -> (r: (Vec<Step>, Vec<String>))
    requires
        songs@.len() == chapters@.len(),
    ensures
        views(r.0@) == chapters_plan(
            songs@,
            chapters@,
            dir@,
            full@,
            clean,
            numbered,
            songs@.len() as int,
        ),
        texts(r.1@) == track_paths(songs@, dir@, clean, songs@.len() as int),
{
    let mut steps: Vec<Step> = Vec::new();
    let mut paths: Vec<String> = Vec::new();
    let mut i: usize = 0;
    while i < songs.len()
        invariant
            i <= songs@.len(),
            songs@.len() == chapters@.len(),
            views(steps@) == chapters_plan(songs@, chapters@, dir@, full@, clean, numbered, i as int),
            texts(paths@) == track_paths(songs@, dir@, clean, i as int),
        decreases songs@.len() - i,
    {
        let song = &songs[i];
        let name = song_stem_of(song, clean);
        let track_no = if numbered {
            Some(i + 1)
        } else {
            None
        };
        let ghost before = steps@;
        let mut more = chapter_steps(song, &chapters[i], dir, full, name.as_str(), track_no);
        let ghost added = more@;
        steps.append(&mut more);
        assert(views(steps@) =~= views(before) + views(added));
        let mp3 = suffixed(name.as_str(), ".mp3");
        let path = join(dir, mp3.as_str());
        let ghost paths_before = paths@;
        paths.push(path);
        assert(texts(paths@) =~= texts(paths_before).push(path@));
        assert(texts(paths@) =~= track_paths(songs@, dir@, clean, i + 1));
        i = i + 1;
    }
    (steps, paths)
}

fn index_step(dir: &str, title: &String, paths: &Vec<String>) -> (r: Step)
    ensures
        r@ == (StepView::WriteIndex {
            path: index_path(dir@, title@),
            contents: index_text(texts(paths@)),
        }),
{
    let clean = sanitize(title.as_str());
    let name = suffixed(clean.as_str(), ".m3u8");
    Step::WriteIndex { path: join(dir, name.as_str()), contents: index_contents(paths) }
}

fn playlist_dir_of(base_dir: &str, title: &String) -> (r: String)
    ensures
        r@ == playlist_dir(base_dir@, title@),
{
    let parent = join(base_dir, "playlists");
    let clean = sanitize(title.as_str());
    join(parent.as_str(), clean.as_str())
}

fn album_dir_of(base_dir: &str, title: &String) -> (r: String)
    ensures
        r@ == album_dir(base_dir@, title@),
{
    let parent = join(base_dir, "albums");
    join(parent.as_str(), title.as_str())
}

impl Single {
    /// The work that downloads this track into `singles` under `base_dir`.
    pub fn download(&self, base_dir: &str) -> (r: Vec<Step>)
        ensures
            views(r@) == single_plan(*self, base_dir@),
    {
        let dir = join(base_dir, "singles");
        let name = stem(self.track.as_str(), self.artist.as_str());
        let mut r = track_steps(self, dir.as_str(), name.as_str(), None);
        r.push(Step::Cleanup { dir });
        assert(views(r@) =~= single_plan(*self, base_dir@));
        r
    }
}

impl Playlist {
    /// The work that downloads every track into the playlist's directory and
    /// writes its index.
    pub fn download(&self, base_dir: &str) -> (r: Vec<Step>)
        ensures
            views(r@) == playlist_plan(*self, base_dir@),
    {
        let dir = playlist_dir_of(base_dir, &self.playlist_title);
        let (mut r, paths) = plan_tracks(&self.songs, dir.as_str(), true, false);
        r.push(index_step(dir.as_str(), &self.playlist_title, &paths));
        r.push(Step::Cleanup { dir });
        assert(views(r@) =~= playlist_plan(*self, base_dir@));
        r
    }
}

impl Album {
    /// The work that downloads every track, numbered, into the album's directory.
    pub fn download(&self, base_dir: &str) -> (r: Vec<Step>)
        ensures
            views(r@) == album_plan(*self, base_dir@),
    {
        let dir = album_dir_of(base_dir, &self.album_title);
        let (mut r, _paths) = plan_tracks(&self.songs, dir.as_str(), false, true);
        r.push(Step::Cleanup { dir });
        assert(views(r@) =~= album_plan(*self, base_dir@));
        r
    }
}

impl FullVideoPlaylist {
    /// The work that downloads the whole video once, cuts it into the
    /// chapters' tracks and writes the playlist's index.
    pub fn download(&self, base_dir: &str) -> (r: Vec<Step>)
        requires
            self.wf(),
        ensures
            views(r@) == full_video_playlist_plan(*self, base_dir@),
    {
        let dir = playlist_dir_of(base_dir, &self.playlist_title);
        let clean = sanitize(self.playlist_title.as_str());
        let full = suffixed(clean.as_str(), "---FULL");
        let mut r: Vec<Step> = Vec::new();
        r.push(
            Step::Acquire {
                url: self.webpage_url.clone(),
                template: suffixed(full.as_str(), ".%(ext)s"),
                dir: dir.clone(),
                thumbnail: self.use_thumbnail,
            },
        );
        let (mut more, paths) = plan_chapters(
            &self.songs,
            &self.chapters,
            dir.as_str(),
            full.as_str(),
            true,
            false,
        );
        r.append(&mut more);
        r.push(index_step(dir.as_str(), &self.playlist_title, &paths));
        r.push(Step::Cleanup { dir });
        assert(views(r@) =~= full_video_playlist_plan(*self, base_dir@));
        r
    }
}

impl FullVideoAlbum {
    /// The work that downloads the whole video once and cuts it into the
    /// chapters' numbered tracks.
    pub fn download(&self, base_dir: &str) -> (r: Vec<Step>)
        requires
            self.wf(),
        ensures
            views(r@) == full_video_album_plan(*self, base_dir@),
    {
        let dir = album_dir_of(base_dir, &self.album_title);
        let full = suffixed(self.album_title.as_str(), "---FULL");
        let mut r: Vec<Step> = Vec::new();
        r.push(
            Step::Acquire {
                url: self.webpage_url.clone(),
                template: suffixed(full.as_str(), ".%(ext)s"),
                dir: dir.clone(),
                thumbnail: self.use_thumbnail,
            },
        );
        let (mut more, _paths) = plan_chapters(
            &self.songs,
            &self.chapters,
            dir.as_str(),
            full.as_str(),
            false,
            true,
        );
        r.append(&mut more);
        r.push(Step::Cleanup { dir });
        assert(views(r@) =~= full_video_album_plan(*self, base_dir@));
        r
    }
}

impl Content {
    /// The work that downloads this content under `base_dir`.
    pub fn download(&self, base_dir: &str) -> (r: Vec<Step>)
        requires
            self.wf(),
        ensures
            views(r@) == content_plan(*self, base_dir@),
    {
        match self {
            Content::Single(s) => s.download(base_dir),
            Content::Playlist(p) => p.download(base_dir),
            Content::Album(a) => a.download(base_dir),
            Content::FullVideoPlaylist(p) => p.download(base_dir),
            Content::FullVideoAlbum(a) => a.download(base_dir),
        }
    }
}

} // verus!
