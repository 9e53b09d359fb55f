use vstd::prelude::*;
use crate::model::{Chapter, Single, opt_view};
use crate::steps::{Step, StepView, views};
use crate::text::{join, join_path, file_name, file_name_of, jpg_sibling, convert_jpg};
use crate::sanitize::sanitized;

verus! {

/// The name shared by a track's files: `<track>---<artist>`.
pub open spec fn joined_stem(track: Seq<char>, artist: Seq<char>) -> Seq<char> {
    track + "---"@ + artist
}

/// The name of the full-length download of a chaptered video.
pub open spec fn full_stem(title: Seq<char>) -> Seq<char> {
    title + "---FULL"@
}

/// The downloader's name template for `stem`.
pub open spec fn template_of(stem: Seq<char>) -> Seq<char> {
    stem + ".%(ext)s"@
}

pub open spec fn mp3_of(stem: Seq<char>) -> Seq<char> {
    stem + ".mp3"@
}

/// The name under which the downloader leaves the thumbnail of `stem`.
pub open spec fn thumbnail_of(stem: Seq<char>) -> Seq<char> {
    stem + ".webp"@
}

/// The work that prepares a track's cover: a picked image is copied into
/// `dir` and converted; without one, the downloaded thumbnail is converted
/// if the thumbnail is wanted; otherwise there is nothing to do.
pub open spec fn cover_steps(
    cover: Option<Seq<char>>,
    use_thumbnail: bool,
    dir: Seq<char>,
    thumb_stem: Seq<char>,
) -> Seq<StepView> {
    match cover {
        Some(p) => if file_name(p).len() > 0 {
            let copy = join_path(dir, file_name(p));
            seq![
                StepView::CopyFile { from: p, to: copy },
                StepView::ConvertJpg { input: copy, output: jpg_sibling(copy) },
            ]
        } else {
            Seq::empty()
        },
        None => if use_thumbnail {
            let thumb = join_path(dir, thumbnail_of(thumb_stem));
            seq![StepView::ConvertJpg { input: thumb, output: jpg_sibling(thumb) }]
        } else {
            Seq::empty()
        },
    }
}

/// The JPEG file embedded as a track's cover, if any (see `cover_steps`).
pub open spec fn cover_of(
    cover: Option<Seq<char>>,
    use_thumbnail: bool,
    dir: Seq<char>,
    thumb_stem: Seq<char>,
) -> Option<Seq<char>> {
    match cover {
        Some(p) => if file_name(p).len() > 0 {
            Some(jpg_sibling(join_path(dir, file_name(p))))
        } else {
            None
        },
        None => if use_thumbnail {
            Some(jpg_sibling(join_path(dir, thumbnail_of(thumb_stem))))
        } else {
            None
        },
    }
}

pub open spec fn tag_view(
    s: Single,
    audio: Seq<char>,
    cover: Option<Seq<char>>,
    track_no: Option<usize>,
) -> StepView {
    StepView::Tag {
        audio,
        cover,
        track_no,
        title: s.track@,
        artist: s.artist@,
        album: s.album@,
    }
}

/// The work for a track downloaded on its own: fetch it as `stem`, prepare
/// its cover, tag it.
pub open spec fn track_plan(
    s: Single,
    dir: Seq<char>,
    stem: Seq<char>,
    track_no: Option<usize>,
) -> Seq<StepView> {
    seq![
        StepView::Acquire {
            url: s.webpage_url@,
            template: template_of(stem),
            dir,
            thumbnail: s.use_thumbnail,
        },
    ] + cover_steps(opt_view(s.cover_path), s.use_thumbnail, dir, stem) + seq![
        tag_view(
            s,
            join_path(dir, mp3_of(stem)),
            cover_of(opt_view(s.cover_path), s.use_thumbnail, dir, stem),
            track_no,
        ),
    ]
}

/// The work for a track cut out of the full download `full`: split the
/// chapter's range into `stem`, prepare its cover, tag it.
pub open spec fn chapter_plan(
    s: Single,
    c: Chapter,
    dir: Seq<char>,
    full: Seq<char>,
    stem: Seq<char>,
    track_no: Option<usize>,
) -> Seq<StepView> {
    seq![
        StepView::Split {
            start_ms: c.start_ms,
            end_ms: c.end_ms,
            input: join_path(dir, mp3_of(full)),
            output: join_path(dir, mp3_of(stem)),
        },
    ] + cover_steps(opt_view(s.cover_path), s.use_thumbnail, dir, full) + seq![
        tag_view(
            s,
            join_path(dir, mp3_of(stem)),
            cover_of(opt_view(s.cover_path), s.use_thumbnail, dir, full),
            track_no,
        ),
    ]
}

/// A track's file name stem, its texts sanitised or as they are.
pub open spec fn song_stem(s: Single, clean: bool) -> Seq<char> {
    if clean {
        joined_stem(sanitized(s.track@), sanitized(s.artist@))
    } else {
        joined_stem(s.track@, s.artist@)
    }
}

/// The track number of the `n`-th track (counting from 1), where tracks are numbered.
pub open spec fn number(n: int, numbered: bool) -> Option<usize> {
    if numbered {
        Some(n as usize)
    } else {
        None
    }
}

/// The work for the first `n` tracks of a list, in order.
pub open spec fn tracks_plan(
    songs: Seq<Single>,
    dir: Seq<char>,
    clean: bool,
    numbered: bool,
    n: int,
) -> Seq<StepView>
    decreases n,
{
    if n <= 0 {
        Seq::empty()
    } else {
        tracks_plan(songs, dir, clean, numbered, n - 1) + track_plan(
            songs[n - 1],
            dir,
            song_stem(songs[n - 1], clean),
            number(n, numbered),
        )
    }
}

/// The work for the first `n` chapters of a full download, in order.
pub open spec fn chapters_plan(
    songs: Seq<Single>,
    chapters: Seq<Chapter>,
    dir: Seq<char>,
    full: Seq<char>,
    clean: bool,
    numbered: bool,
    n: int,
) -> Seq<StepView>
    decreases n,
{
    if n <= 0 {
        Seq::empty()
    } else {
        chapters_plan(songs, chapters, dir, full, clean, numbered, n - 1) + chapter_plan(
            songs[n - 1],
            chapters[n - 1],
            dir,
            full,
            song_stem(songs[n - 1], clean),
            number(n, numbered),
        )
    }
}

/// The audio files of the first `n` tracks, in order.
pub open spec fn track_paths(songs: Seq<Single>, dir: Seq<char>, clean: bool, n: int) -> Seq<
    Seq<char>,
> {
    Seq::new(n as nat, |i: int| join_path(dir, mp3_of(song_stem(songs[i], clean))))
}

pub(crate) fn suffixed(stem: &str, suffix: &str) -> (r: String)
    ensures
        r@ == stem@ + suffix@,
{
    let mut r = String::from_str(stem);
    r.append(suffix);
    r
}

/// The file name stem `<track>---<artist>`.
pub fn stem(track: &str, artist: &str) -> (r: String)
    ensures
        r@ == joined_stem(track@, artist@),
{
    let mut r = String::from_str(track);
    r.append("---");
    r.append(artist);
    r
}

/// Decides where a track's cover comes from and what must be done to get it
/// (see `cover_steps` and `cover_of`).
pub fn resolve_cover(cover_path: &Option<String>, use_thumbnail: bool, dir: &str, thumb_stem: &str) -> (r: (
    Vec<Step>,
    Option<String>,
))
    ensures
        views(r.0@) == cover_steps(opt_view(*cover_path), use_thumbnail, dir@, thumb_stem@),
        opt_view(r.1) == cover_of(opt_view(*cover_path), use_thumbnail, dir@, thumb_stem@),
{
    let mut steps: Vec<Step> = Vec::new();
    match cover_path {
        Some(p) => {
            let name = file_name_of(p.as_str());
            if name.as_str().unicode_len() > 0 {
                let copy = join(dir, name.as_str());
                let jpg = convert_jpg(copy.as_str());
                steps.push(Step::CopyFile { from: p.clone(), to: copy.clone() });
                steps.push(Step::ConvertJpg { input: copy, output: jpg.clone() });
                assert(views(steps@) =~= cover_steps(
                    opt_view(*cover_path),
                    use_thumbnail,
                    dir@,
                    thumb_stem@,
                ));
                (steps, Some(jpg))
            } else {
                assert(views(steps@) =~= Seq::empty());
                (steps, None)
            }
        },
        None => {
            if use_thumbnail {
                let thumb_name = suffixed(thumb_stem, ".webp");
                let thumb = join(dir, thumb_name.as_str());
                let jpg = convert_jpg(thumb.as_str());
                steps.push(Step::ConvertJpg { input: thumb, output: jpg.clone() });
                assert(views(steps@) =~= cover_steps(
                    opt_view(*cover_path),
                    use_thumbnail,
                    dir@,
                    thumb_stem@,
                ));
                (steps, Some(jpg))
            } else {
                assert(views(steps@) =~= Seq::empty());
                (steps, None)
            }
        },
    }
}

fn tag_step(song: &Single, audio: String, cover: Option<String>, track_no: Option<usize>) -> (r: Step)
    ensures
        r@ == tag_view(*song, audio@, opt_view(cover), track_no),
{
    Step::Tag {
        audio,
        cover,
        track_no,
        title: song.track.clone(),
        artist: song.artist.clone(),
        album: song.album.clone(),
    }
}

/// The work for one track downloaded on its own under the name `stem`.
pub fn track_steps(song: &Single, dir: &str, stem: &str, track_no: Option<usize>) -> (r: Vec<Step>)
    ensures
        views(r@) == track_plan(*song, dir@, stem@, track_no),
{
    let mut r: Vec<Step> = Vec::new();
    r.push(
        Step::Acquire {
            url: song.webpage_url.clone(),
            template: suffixed(stem, ".%(ext)s"),
            dir: String::from_str(dir),
            thumbnail: song.use_thumbnail,
        },
    );
    let (mut covers, cover) = resolve_cover(&song.cover_path, song.use_thumbnail, dir, stem);
    r.append(&mut covers);
    let mp3 = suffixed(stem, ".mp3");
    let audio = join(dir, mp3.as_str());
    r.push(tag_step(song, audio, cover, track_no));
    assert(views(r@) =~= track_plan(*song, dir@, stem@, track_no));
    r
}

/// The work for one track cut by `chapter` out of the full download `full`,
/// and written under the name `stem`.
pub fn chapter_steps(
    song: &Single,
    chapter: &Chapter,
    dir: &str,
    full: &str,
    stem: &str,
    track_no: Option<usize>,
) -> (r: Vec<Step>)
    ensures
        views(r@) == chapter_plan(*song, *chapter, dir@, full@, stem@, track_no),
{
    let mut r: Vec<Step> = Vec::new();
    let full_mp3 = suffixed(full, ".mp3");
    let mp3 = suffixed(stem, ".mp3");
    r.push(
        Step::Split {
            start_ms: chapter.start_ms,
            end_ms: chapter.end_ms,
            input: join(dir, full_mp3.as_str()),
            output: join(dir, mp3.as_str()),
        },
    );
    let (mut covers, cover) = resolve_cover(&song.cover_path, song.use_thumbnail, dir, full);
    r.append(&mut covers);
    let audio = join(dir, mp3.as_str());
    r.push(tag_step(song, audio, cover, track_no));
    assert(views(r@) =~= chapter_plan(*song, *chapter, dir@, full@, stem@, track_no));
    r
}

} // verus!
