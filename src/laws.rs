use vstd::prelude::*;
use crate::model::{Chapter, Single};
use crate::content::{Playlist, Album, FullVideoPlaylist, FullVideoAlbum, removed_at};
use crate::steps::StepView;
use crate::plan::{
    cover_steps,
    cover_of,
    track_plan,
    chapter_plan,
    tracks_plan,
    chapters_plan,
    number,
};
use crate::download::{
    single_plan,
    playlist_plan,
    album_plan,
    full_video_playlist_plan,
    full_video_album_plan,
};
use crate::cleanup::{is_transient, transient_only};

verus! {

/// The track numbers that the tag steps of a plan write, in order.
pub open spec fn tag_numbers(plan: Seq<StepView>) -> Seq<Option<usize>>
    decreases plan.len(),
{
    if plan.len() == 0 {
        Seq::empty()
    } else {
        let prev = tag_numbers(plan.drop_last());
        match plan.last() {
            StepView::Tag { track_no, .. } => prev.push(track_no),
            _ => prev,
        }
    }
}

/// The time ranges that the split steps of a plan cut, in order.
pub open spec fn split_ranges(plan: Seq<StepView>) -> Seq<(u64, u64)>
    decreases plan.len(),
{
    if plan.len() == 0 {
        Seq::empty()
    } else {
        let prev = split_ranges(plan.drop_last());
        match plan.last() {
            StepView::Split { start_ms, end_ms, .. } => prev.push((start_ms, end_ms)),
            _ => prev,
        }
    }
}

/// The range of each chapter, in order.
pub open spec fn chapter_ranges(chapters: Seq<Chapter>) -> Seq<(u64, u64)> {
    chapters.map_values(|c: Chapter| (c.start_ms, c.end_ms))
}

proof fn lemma_tag_numbers_add(a: Seq<StepView>, b: Seq<StepView>)
    ensures
        tag_numbers(a + b) == tag_numbers(a) + tag_numbers(b),
    decreases b.len(),
{
    if b.len() == 0 {
        assert(a + b =~= a);
        assert(tag_numbers(a) + tag_numbers(b) =~= tag_numbers(a));
    } else {
        lemma_tag_numbers_add(a, b.drop_last());
        assert((a + b).drop_last() =~= a + b.drop_last());
        assert((a + b).last() == b.last());
        match b.last() {
            StepView::Tag { track_no, .. } => {
                assert(tag_numbers(a + b) =~= tag_numbers(a) + tag_numbers(b));
            },
            _ => {
                assert(tag_numbers(a + b) =~= tag_numbers(a) + tag_numbers(b));
            },
        }
    }
}

proof fn lemma_split_ranges_add(a: Seq<StepView>, b: Seq<StepView>)
    ensures
        split_ranges(a + b) == split_ranges(a) + split_ranges(b),
    decreases b.len(),
{
    if b.len() == 0 {
        assert(a + b =~= a);
        assert(split_ranges(a) + split_ranges(b) =~= split_ranges(a));
    } else {
        lemma_split_ranges_add(a, b.drop_last());
        assert((a + b).drop_last() =~= a + b.drop_last());
        assert((a + b).last() == b.last());
        match b.last() {
            StepView::Split { start_ms, end_ms, .. } => {
                assert(split_ranges(a + b) =~= split_ranges(a) + split_ranges(b));
            },
            _ => {
                assert(split_ranges(a + b) =~= split_ranges(a) + split_ranges(b));
            },
        }
    }
}

proof fn lemma_one(x: StepView)
    ensures
        tag_numbers(seq![x]) == (match x {
            StepView::Tag { track_no, .. } => seq![track_no],
            _ => Seq::<Option<usize>>::empty(),
        }),
        split_ranges(seq![x]) == (match x {
            StepView::Split { start_ms, end_ms, .. } => seq![(start_ms, end_ms)],
            _ => Seq::<(u64, u64)>::empty(),
        }),
{
    let e = Seq::<StepView>::empty();
    assert(seq![x].drop_last() =~= e);
    assert(seq![x].last() == x);
    assert(tag_numbers(e) =~= Seq::<Option<usize>>::empty());
    assert(split_ranges(e) =~= Seq::<(u64, u64)>::empty());
    match x {
        StepView::Tag { track_no, .. } => {
            assert(tag_numbers(seq![x]) =~= seq![track_no]);
        },
        StepView::Split { start_ms, end_ms, .. } => {
            assert(split_ranges(seq![x]) =~= seq![(start_ms, end_ms)]);
        },
        _ => {},
    }
}

proof fn lemma_cover_steps_quiet(
    cover: Option<Seq<char>>,
    use_thumbnail: bool,
    dir: Seq<char>,
    stem: Seq<char>,
)
    ensures
        tag_numbers(cover_steps(cover, use_thumbnail, dir, stem)).len() == 0,
        split_ranges(cover_steps(cover, use_thumbnail, dir, stem)).len() == 0,
{
    let c = cover_steps(cover, use_thumbnail, dir, stem);
    if c.len() == 0 {
    } else if c.len() == 1 {
        assert(c =~= seq![c[0]]);
        lemma_one(c[0]);
    } else {
        assert(c =~= seq![c[0]] + seq![c[1]]);
        lemma_one(c[0]);
        lemma_one(c[1]);
        lemma_tag_numbers_add(seq![c[0]], seq![c[1]]);
        lemma_split_ranges_add(seq![c[0]], seq![c[1]]);
    }
}

proof fn lemma_track_plan(s: Single, dir: Seq<char>, stem: Seq<char>, n: Option<usize>)
    ensures
        tag_numbers(track_plan(s, dir, stem, n)) == seq![n],
{
    let p = track_plan(s, dir, stem, n);
    let a = p.subrange(0, 1);
    let c = crate::plan::cover_steps(
        crate::model::opt_view(s.cover_path),
        s.use_thumbnail,
        dir,
        stem,
    );
    let t = p.subrange(p.len() - 1, p.len() as int);
    assert(p =~= a + c + t);
    assert(a =~= seq![a[0]]);
    assert(t =~= seq![t[0]]);
    lemma_one(a[0]);
    lemma_one(t[0]);
    lemma_cover_steps_quiet(crate::model::opt_view(s.cover_path), s.use_thumbnail, dir, stem);
    lemma_tag_numbers_add(a + c, t);
    lemma_tag_numbers_add(a, c);
    assert(tag_numbers(p) =~= seq![n]);
}

proof fn lemma_chapter_plan(
    s: Single,
    ch: Chapter,
    dir: Seq<char>,
    full: Seq<char>,
    stem: Seq<char>,
    n: Option<usize>,
)
    ensures
        tag_numbers(chapter_plan(s, ch, dir, full, stem, n)) == seq![n],
        split_ranges(chapter_plan(s, ch, dir, full, stem, n)) == seq![(ch.start_ms, ch.end_ms)],
{
    let p = chapter_plan(s, ch, dir, full, stem, n);
    let a = p.subrange(0, 1);
    let c = crate::plan::cover_steps(
        crate::model::opt_view(s.cover_path),
        s.use_thumbnail,
        dir,
        full,
    );
    let t = p.subrange(p.len() - 1, p.len() as int);
    assert(p =~= a + c + t);
    assert(a =~= seq![a[0]]);
    assert(t =~= seq![t[0]]);
    lemma_one(a[0]);
    lemma_one(t[0]);
    lemma_cover_steps_quiet(crate::model::opt_view(s.cover_path), s.use_thumbnail, dir, full);
    lemma_tag_numbers_add(a + c, t);
    lemma_tag_numbers_add(a, c);
    lemma_split_ranges_add(a + c, t);
    lemma_split_ranges_add(a, c);
    assert(tag_numbers(p) =~= seq![n]);
    assert(split_ranges(p) =~= seq![(ch.start_ms, ch.end_ms)]);
}

proof fn lemma_tracks_plan(songs: Seq<Single>, dir: Seq<char>, clean: bool, numbered: bool, n: int)
    requires
        0 <= n <= songs.len(),
    ensures
        tag_numbers(tracks_plan(songs, dir, clean, numbered, n)) == Seq::new(
            n as nat,
            |k: int| number(k + 1, numbered),
        ),
    decreases n,
{
    if n > 0 {
        lemma_tracks_plan(songs, dir, clean, numbered, n - 1);
        let prev = tracks_plan(songs, dir, clean, numbered, n - 1);
        let last = track_plan(
            songs[n - 1],
            dir,
            crate::plan::song_stem(songs[n - 1], clean),
            number(n, numbered),
        );
        lemma_track_plan(
            songs[n - 1],
            dir,
            crate::plan::song_stem(songs[n - 1], clean),
            number(n, numbered),
        );
        lemma_tag_numbers_add(prev, last);
        assert(tag_numbers(tracks_plan(songs, dir, clean, numbered, n)) =~= Seq::new(
            n as nat,
            |k: int| number(k + 1, numbered),
        ));
    } else {
        assert(tag_numbers(tracks_plan(songs, dir, clean, numbered, n)) =~= Seq::new(
            n as nat,
            |k: int| number(k + 1, numbered),
        ));
    }
}

proof fn lemma_chapters_plan(
    songs: Seq<Single>,
    chapters: Seq<Chapter>,
    dir: Seq<char>,
    full: Seq<char>,
    clean: bool,
    numbered: bool,
    n: int,
)
    requires
        0 <= n <= songs.len(),
        songs.len() == chapters.len(),
    ensures
        tag_numbers(chapters_plan(songs, chapters, dir, full, clean, numbered, n)) == Seq::new(
            n as nat,
            |k: int| number(k + 1, numbered),
        ),
        split_ranges(chapters_plan(songs, chapters, dir, full, clean, numbered, n))
            == chapter_ranges(chapters.subrange(0, n)),
    decreases n,
{
    let plan = chapters_plan(songs, chapters, dir, full, clean, numbered, n);
    if n > 0 {
        lemma_chapters_plan(songs, chapters, dir, full, clean, numbered, n - 1);
        let prev = chapters_plan(songs, chapters, dir, full, clean, numbered, n - 1);
        let stem = crate::plan::song_stem(songs[n - 1], clean);
        let last = chapter_plan(songs[n - 1], chapters[n - 1], dir, full, stem, number(n, numbered));
        lemma_chapter_plan(songs[n - 1], chapters[n - 1], dir, full, stem, number(n, numbered));
        lemma_tag_numbers_add(prev, last);
        lemma_split_ranges_add(prev, last);
        assert(tag_numbers(plan) =~= Seq::new(n as nat, |k: int| number(k + 1, numbered)));
        assert(split_ranges(plan) =~= chapter_ranges(chapters.subrange(0, n)));
    } else {
        assert(tag_numbers(plan) =~= Seq::new(n as nat, |k: int| number(k + 1, numbered)));
        assert(split_ranges(plan) =~= chapter_ranges(chapters.subrange(0, n)));
    }
}

/// A picked cover image takes precedence over the thumbnail: whether the
/// thumbnail is wanted changes neither the work done for the cover nor the
/// cover embedded.
pub proof fn explicit_cover_wins(path: Seq<char>, dir: Seq<char>, stem: Seq<char>)
    ensures
        cover_steps(Some(path), true, dir, stem) == cover_steps(Some(path), false, dir, stem),
        cover_of(Some(path), true, dir, stem) == cover_of(Some(path), false, dir, stem),
{
}

/// A single track is tagged once, without a track number.
pub proof fn single_is_not_numbered(s: Single, base: Seq<char>)
    ensures
        tag_numbers(single_plan(s, base)) == seq![None::<usize>],
{
    let dir = crate::download::singles_dir(base);
    let stem = crate::plan::joined_stem(s.track@, s.artist@);
    let p = track_plan(s, dir, stem, None);
    lemma_track_plan(s, dir, stem, None);
    lemma_one(StepView::Cleanup { dir });
    lemma_tag_numbers_add(p, seq![StepView::Cleanup { dir }]);
    assert(single_plan(s, base) =~= p + seq![StepView::Cleanup { dir }]);
}

/// The tracks of a playlist are tagged in order, none with a track number.
pub proof fn playlist_is_not_numbered(p: Playlist, base: Seq<char>)
    ensures
        tag_numbers(playlist_plan(p, base)) == Seq::new(p.songs@.len(), |k: int| None::<usize>),
{
    let dir = crate::download::playlist_dir(base, p.playlist_title@);
    let n = p.songs@.len() as int;
    let body = tracks_plan(p.songs@, dir, true, false, n);
    let tail = playlist_plan(p, base).subrange(body.len() as int, body.len() as int + 2);
    assert(playlist_plan(p, base) =~= body + tail);
    assert(tail =~= seq![tail[0]] + seq![tail[1]]);
    lemma_tracks_plan(p.songs@, dir, true, false, n);
    lemma_one(tail[0]);
    lemma_one(tail[1]);
    lemma_tag_numbers_add(seq![tail[0]], seq![tail[1]]);
    lemma_tag_numbers_add(body, tail);
    assert(tag_numbers(playlist_plan(p, base)) =~= Seq::new(
        p.songs@.len(),
        |k: int| None::<usize>,
    ));
}

/// The tracks of an album are tagged in order with the numbers 1, 2, ...
pub proof fn album_is_numbered(a: Album, base: Seq<char>)
    ensures
        tag_numbers(album_plan(a, base)) == Seq::new(
            a.songs@.len(),
            |k: int| Some((k + 1) as usize),
        ),
{
    let dir = crate::download::album_dir(base, a.album_title@);
    let n = a.songs@.len() as int;
    let body = tracks_plan(a.songs@, dir, false, true, n);
    lemma_tracks_plan(a.songs@, dir, false, true, n);
    lemma_one(StepView::Cleanup { dir });
    lemma_tag_numbers_add(body, seq![StepView::Cleanup { dir }]);
    assert(album_plan(a, base) =~= body + seq![StepView::Cleanup { dir }]);
    assert(tag_numbers(album_plan(a, base)) =~= Seq::new(
        a.songs@.len(),
        |k: int| Some((k + 1) as usize),
    ));
}

/// The tracks of a chaptered playlist are tagged in order, none with a track
/// number, and the full download is cut once per chapter, along the
/// chapters' own ranges and in their order.
pub proof fn full_video_playlist_follows_chapters(p: FullVideoPlaylist, base: Seq<char>)
    requires
        p.wf(),
    ensures
        tag_numbers(full_video_playlist_plan(p, base)) == Seq::new(
            p.songs@.len(),
            |k: int| None::<usize>,
        ),
        split_ranges(full_video_playlist_plan(p, base)) == chapter_ranges(p.chapters@),
{
    let plan = full_video_playlist_plan(p, base);
    let dir = crate::download::playlist_dir(base, p.playlist_title@);
    let full = crate::plan::full_stem(crate::sanitize::sanitized(p.playlist_title@));
    let n = p.songs@.len() as int;
    let body = chapters_plan(p.songs@, p.chapters@, dir, full, true, false, n);
    let head = plan.subrange(0, 1);
    let tail = plan.subrange(body.len() as int + 1, body.len() as int + 3);
    assert(plan =~= head + body + tail);
    assert(head =~= seq![head[0]]);
    assert(tail =~= seq![tail[0]] + seq![tail[1]]);
    lemma_chapters_plan(p.songs@, p.chapters@, dir, full, true, false, n);
    lemma_one(head[0]);
    lemma_one(tail[0]);
    lemma_one(tail[1]);
    lemma_tag_numbers_add(seq![tail[0]], seq![tail[1]]);
    lemma_split_ranges_add(seq![tail[0]], seq![tail[1]]);
    lemma_tag_numbers_add(head, body);
    lemma_tag_numbers_add(head + body, tail);
    lemma_split_ranges_add(head, body);
    lemma_split_ranges_add(head + body, tail);
    assert(p.chapters@.subrange(0, n) =~= p.chapters@);
    assert(tag_numbers(plan) =~= Seq::new(p.songs@.len(), |k: int| None::<usize>));
    assert(split_ranges(plan) =~= chapter_ranges(p.chapters@));
}

/// The tracks of a chaptered album are tagged in order with the numbers 1,
/// 2, ..., and the full download is cut once per chapter, along the chapters'
/// own ranges and in their order.
pub proof fn full_video_album_follows_chapters(a: FullVideoAlbum, base: Seq<char>)
    requires
        a.wf(),
    ensures
        tag_numbers(full_video_album_plan(a, base)) == Seq::new(
            a.songs@.len(),
            |k: int| Some((k + 1) as usize),
        ),
        split_ranges(full_video_album_plan(a, base)) == chapter_ranges(a.chapters@),
{
    let plan = full_video_album_plan(a, base);
    let dir = crate::download::album_dir(base, a.album_title@);
    let full = crate::plan::full_stem(a.album_title@);
    let n = a.songs@.len() as int;
    let body = chapters_plan(a.songs@, a.chapters@, dir, full, false, true, n);
    let head = plan.subrange(0, 1);
    let tail = plan.subrange(body.len() as int + 1, body.len() as int + 2);
    assert(plan =~= head + body + tail);
    assert(head =~= seq![head[0]]);
    assert(tail =~= seq![tail[0]]);
    lemma_chapters_plan(a.songs@, a.chapters@, dir, full, false, true, n);
    lemma_one(head[0]);
    lemma_one(tail[0]);
    lemma_tag_numbers_add(head, body);
    lemma_tag_numbers_add(head + body, tail);
    lemma_split_ranges_add(head, body);
    lemma_split_ranges_add(head + body, tail);
    assert(a.chapters@.subrange(0, n) =~= a.chapters@);
    assert(tag_numbers(plan) =~= Seq::new(a.songs@.len(), |k: int| Some((k + 1) as usize)));
    assert(split_ranges(plan) =~= chapter_ranges(a.chapters@));
}

/// Removing the pair at `i` keeps chapters and tracks paired: both lose
/// their entry at `i`, the entries before it keep their index, and each
/// later one moves down by one.
pub proof fn removal_keeps_pairs(chapters: Seq<Chapter>, songs: Seq<Single>, i: usize)
    requires
        chapters.len() == songs.len(),
        i < chapters.len(),
    ensures
        removed_at(chapters, Some(i)).len() == removed_at(songs, Some(i)).len(),
        removed_at(chapters, Some(i)).len() == chapters.len() - 1,
        forall|j: int|
            0 <= j < i ==> #[trigger] removed_at(chapters, Some(i))[j] == chapters[j]
                && removed_at(songs, Some(i))[j] == songs[j],
        forall|j: int|
            i <= j < chapters.len() - 1 ==> #[trigger] removed_at(chapters, Some(i))[j]
                == chapters[j + 1] && removed_at(songs, Some(i))[j] == songs[j + 1],
{
}

proof fn lemma_transient_only(names: Seq<Seq<char>>)
    ensures
        forall|x: Seq<char>|
            #[trigger] transient_only(names).contains(x) <==> (names.contains(x) && is_transient(
                x,
            )),
    decreases names.len(),
{
    if names.len() > 0 {
        let init = names.drop_last();
        lemma_transient_only(init);
        assert forall|x: Seq<char>|
            #[trigger] transient_only(names).contains(x) <==> (names.contains(x) && is_transient(
                x,
            )) by {
            if names.contains(x) && !init.contains(x) {
                let k = choose|k: int| 0 <= k < names.len() && names[k] == x;
                if k < names.len() - 1 {
                    assert(init[k] == x);
                }
            }
            if init.contains(x) {
                let k = choose|k: int| 0 <= k < init.len() && init[k] == x;
                assert(names[k] == x);
            }
            if is_transient(names.last()) {
                let t = transient_only(init).push(names.last());
                if transient_only(init).contains(x) {
                    let k = choose|k: int| 0 <= k < transient_only(init).len() && transient_only(init)[k] == x;
                    assert(t[k] == x);
                }
                if t.contains(x) {
                    let k = choose|k: int| 0 <= k < t.len() && t[k] == x;
                    if k < t.len() - 1 {
                        assert(transient_only(init)[k] == x);
                    }
                }
                assert(t[t.len() - 1] == names.last());
            }
            assert(names[names.len() - 1] == names.last());
        }
    }
}

/// The cleanup removes exactly the full-length downloads and the images
/// among the entries, and leaves every other entry alone.
pub proof fn cleanup_removes_exactly_transients(names: Seq<Seq<char>>)
    ensures
        forall|x: Seq<char>|
            #[trigger] transient_only(names).contains(x) <==> (names.contains(x) && is_transient(
                x,
            )),
{
    lemma_transient_only(names);
}

/// Which entries the cleanup removes does not depend on the order in which
/// the directory lists them.
pub proof fn cleanup_ignores_order(a: Seq<Seq<char>>, b: Seq<Seq<char>>)
    requires
        a.to_set() == b.to_set(),
    ensures
        transient_only(a).to_set() == transient_only(b).to_set(),
{
    lemma_transient_only(a);
    lemma_transient_only(b);
    assert forall|x: Seq<char>| a.contains(x) <==> b.contains(x) by {
        assert(a.to_set().contains(x) == a.contains(x));
        assert(b.to_set().contains(x) == b.contains(x));
    }
    assert(transient_only(a).to_set() =~= transient_only(b).to_set());
}

} // verus!
