use bebops::plan::{resolve_cover, stem, track_steps};
use bebops::steps::index_contents;
use bebops::text::{contains_str, file_name_of, join, rfind};
use bebops::cleanup::is_transient_name;
use bebops::{
    cleanup, convert_jpg, download_video, Album, Chapter, Content, DownloadType, FullVideoAlbum,
    FullVideoPlaylist, MyApp, Playlist, Single, Step, UrlInfo,
};

fn s(x: &str) -> String {
    x.to_string()
}

fn info(url: &str, track: &str, artist: &str) -> UrlInfo {
    UrlInfo {
        webpage_url: s(url),
        title: format!("{} video", track),
        uploader: s("Uploader"),
        thumbnail: s("https://img/1.webp"),
        description: s("desc"),
        track: s(track),
        artist: s(artist),
        album: s("Record"),
        playlist: None,
        chapters: None,
    }
}

fn chapter(start_ms: u64, end_ms: u64, title: &str) -> Chapter {
    Chapter { start_ms, end_ms, title: s(title) }
}

fn track(url: &str, name: &str, artist: &str) -> Single {
    let mut t = Single::blank();
    t.webpage_url = s(url);
    t.track = s(name);
    t.artist = s(artist);
    t.use_thumbnail = true;
    t
}

fn tag(audio: &str, cover: Option<&str>, track_no: Option<usize>, title: &str, artist: &str, album: &str) -> Step {
    Step::Tag {
        audio: s(audio),
        cover: cover.map(s),
        track_no,
        title: s(title),
        artist: s(artist),
        album: s(album),
    }
}

fn tag_numbers(steps: &[Step]) -> Vec<Option<usize>> {
    steps
        .iter()
        .filter_map(|st| match st {
            Step::Tag { track_no, .. } => Some(*track_no),
            _ => None,
        })
        .collect()
}

#[test]
fn single_end_to_end() {
    let song = track("https://v/1", "Song", "Artist");
    let steps = song.download("/music");
    assert_eq!(
        steps,
        vec![
            Step::Acquire {
                url: s("https://v/1"),
                template: s("Song---Artist.%(ext)s"),
                dir: s("/music/singles"),
                thumbnail: true,
            },
            Step::ConvertJpg {
                input: s("/music/singles/Song---Artist.webp"),
                output: s("/music/singles/Song---Artist.jpg"),
            },
            tag(
                "/music/singles/Song---Artist.mp3",
                Some("/music/singles/Song---Artist.jpg"),
                None,
                "Song",
                "Artist",
                "",
            ),
            Step::Cleanup { dir: s("/music/singles") },
        ]
    );
    let entries = vec![s("Song---Artist.mp3"), s("Song---Artist.webp"), s("Song---Artist.jpg")];
    assert_eq!(cleanup(&entries), vec![s("Song---Artist.webp"), s("Song---Artist.jpg")]);
}

#[test]
fn full_video_album_end_to_end() {
    let mut u = info("https://v/rec", "", "");
    u.title = s("Rec");
    u.uploader = s("Art");
    u.chapters = Some(vec![chapter(0, 60_000, "One"), chapter(60_000, 120_000, "Two")]);
    let album = FullVideoAlbum::from(u);
    assert_eq!(album.songs.len(), 2);
    let steps = album.download("/m");
    let dir = "/m/albums/Rec";
    assert_eq!(
        steps,
        vec![
            Step::Acquire {
                url: s("https://v/rec"),
                template: s("Rec---FULL.%(ext)s"),
                dir: s(dir),
                thumbnail: true,
            },
            Step::Split {
                start_ms: 0,
                end_ms: 60_000,
                input: s("/m/albums/Rec/Rec---FULL.mp3"),
                output: s("/m/albums/Rec/One---Art.mp3"),
            },
            Step::ConvertJpg {
                input: s("/m/albums/Rec/Rec---FULL.webp"),
                output: s("/m/albums/Rec/Rec---FULL.jpg"),
            },
            tag("/m/albums/Rec/One---Art.mp3", Some("/m/albums/Rec/Rec---FULL.jpg"), Some(1), "One", "Art", ""),
            Step::Split {
                start_ms: 60_000,
                end_ms: 120_000,
                input: s("/m/albums/Rec/Rec---FULL.mp3"),
                output: s("/m/albums/Rec/Two---Art.mp3"),
            },
            Step::ConvertJpg {
                input: s("/m/albums/Rec/Rec---FULL.webp"),
                output: s("/m/albums/Rec/Rec---FULL.jpg"),
            },
            tag("/m/albums/Rec/Two---Art.mp3", Some("/m/albums/Rec/Rec---FULL.jpg"), Some(2), "Two", "Art", ""),
            Step::Cleanup { dir: s(dir) },
        ]
    );
    let entries = vec![s("Rec---FULL.mp3"), s("One---Art.mp3"), s("Two---Art.mp3"), s("Rec---FULL.jpg")];
    assert_eq!(cleanup(&entries), vec![s("Rec---FULL.mp3"), s("Rec---FULL.jpg")]);
}

#[test]
fn playlist_names_are_sanitized() {
    let mut first = info("https://v/1", "A/B", "C");
    first.playlist = Some(s("My/List"));
    let second = info("https://v/2", "D", "E:F");
    let playlist = Playlist::from(vec![first, second]);
    assert_eq!(playlist.playlist_title, "My/List");
    let steps = playlist.download("/m");
    let dir = "/m/playlists/MyList";
    assert_eq!(
        steps[0],
        Step::Acquire { url: s("https://v/1"), template: s("AB---C.%(ext)s"), dir: s(dir), thumbnail: true }
    );
    assert_eq!(
        steps[3],
        Step::Acquire { url: s("https://v/2"), template: s("D---EF.%(ext)s"), dir: s(dir), thumbnail: true }
    );
    assert_eq!(
        steps[6],
        Step::WriteIndex {
            path: s("/m/playlists/MyList/MyList.m3u8"),
            contents: s("/m/playlists/MyList/AB---C.mp3\n/m/playlists/MyList/D---EF.mp3\n"),
        }
    );
    assert_eq!(steps[7], Step::Cleanup { dir: s(dir) });
    assert_eq!(steps.len(), 8);
}

#[test]
fn chapters_split_without_overlap() {
    let mut u = info("https://v/full", "", "");
    u.title = s("Live");
    u.chapters = Some(vec![chapter(0, 30_000, "A"), chapter(30_000, 90_000, "B")]);
    let playlist = FullVideoPlaylist::from(u);
    let steps = playlist.download("/m");
    let splits: Vec<(u64, u64, String)> = steps
        .iter()
        .filter_map(|st| match st {
            Step::Split { start_ms, end_ms, output, .. } => Some((*start_ms, *end_ms, output.clone())),
            _ => None,
        })
        .collect();
    assert_eq!(splits.len(), 2);
    assert_eq!(splits[0], (0, 30_000, s("/m/playlists/Live/A---.mp3")));
    assert_eq!(splits[1], (30_000, 90_000, s("/m/playlists/Live/B---.mp3")));
    assert!(splits[0].1 <= splits[1].0);
    assert_eq!(
        steps[0],
        Step::Acquire {
            url: s("https://v/full"),
            template: s("Live---FULL.%(ext)s"),
            dir: s("/m/playlists/Live"),
            thumbnail: true,
        }
    );
    assert_eq!(tag_numbers(&steps), vec![None, None]);
    assert_eq!(
        steps[steps.len() - 2],
        Step::WriteIndex {
            path: s("/m/playlists/Live/Live.m3u8"),
            contents: s("/m/playlists/Live/A---.mp3\n/m/playlists/Live/B---.mp3\n"),
        }
    );
}

#[test]
fn explicit_cover_beats_thumbnail() {
    let cover = Some(s("/pics/front.png"));
    let (with_thumb, c1) = resolve_cover(&cover, true, "/m/singles", "S---A");
    let (without_thumb, c2) = resolve_cover(&cover, false, "/m/singles", "S---A");
    assert_eq!(
        with_thumb,
        vec![
            Step::CopyFile { from: s("/pics/front.png"), to: s("/m/singles/front.png") },
            Step::ConvertJpg { input: s("/m/singles/front.png"), output: s("/m/singles/front.jpg") },
        ]
    );
    assert_eq!(with_thumb, without_thumb);
    assert_eq!(c1, Some(s("/m/singles/front.jpg")));
    assert_eq!(c1, c2);
}

#[test]
fn no_cover_source_means_no_artwork() {
    let (steps, cover) = resolve_cover(&None, false, "/m", "S---A");
    assert!(steps.is_empty());
    assert_eq!(cover, None);
    let mut song = track("https://v/1", "S", "A");
    song.use_thumbnail = false;
    let steps = song.download("/m");
    assert_eq!(steps.len(), 3);
    assert_eq!(steps[1], tag("/m/singles/S---A.mp3", None, None, "S", "A", ""));
}

#[test]
fn album_tracks_are_numbered() {
    let mut first = info("https://v/1", "One", "X");
    first.playlist = Some(s("Best"));
    let album = Album::from(vec![first, info("https://v/2", "Two", "X"), info("https://v/3", "Three", "X")]);
    assert_eq!(album.album_title, "Best");
    assert_eq!(album.album_artist, "X");
    let steps = album.download("/m");
    assert_eq!(tag_numbers(&steps), vec![Some(1), Some(2), Some(3)]);
    assert_eq!(
        steps[0],
        Step::Acquire { url: s("https://v/1"), template: s("One---X.%(ext)s"), dir: s("/m/albums/Best"), thumbnail: true }
    );
    assert_eq!(steps.last(), Some(&Step::Cleanup { dir: s("/m/albums/Best") }));
}

#[test]
fn playlist_tracks_are_not_numbered() {
    let playlist = Playlist::from(vec![info("https://v/1", "One", "X"), info("https://v/2", "Two", "Y")]);
    assert_eq!(playlist.playlist_title, "Playlist");
    let steps = playlist.download("/m");
    assert_eq!(tag_numbers(&steps), vec![None, None]);
    let single = track("https://v/1", "One", "X");
    assert_eq!(tag_numbers(&single.download("/m")), vec![None]);
}

#[test]
fn cleanup_picks_intermediates_in_any_order() {
    let entries = vec![
        s("Show---FULL.mp3"),
        s("keep.mp3"),
        s("a.jpg"),
        s("b.jpeg"),
        s("c.png"),
        s("d.webp"),
        s("notes.txt"),
        s("x---FULLER.opus"),
        s(".png"),
        s("image.gif"),
    ];
    let removed = cleanup(&entries);
    assert_eq!(
        removed,
        vec![s("Show---FULL.mp3"), s("a.jpg"), s("b.jpeg"), s("c.png"), s("d.webp"), s("x---FULLER.opus")]
    );
    let mut reversed = entries.clone();
    reversed.reverse();
    let mut again = cleanup(&reversed);
    again.reverse();
    assert_eq!(again, removed);
    assert!(cleanup(&vec![]).is_empty());
}

#[test]
fn transient_names() {
    assert!(is_transient_name("x---FULL"));
    assert!(is_transient_name("dir.png"));
    assert!(!is_transient_name("song.mp3"));
    assert!(!is_transient_name("png"));
    assert!(!is_transient_name("song.JPG"));
}

#[test]
fn chapters_and_tracks_stay_paired() {
    let mut u = info("https://v/full", "", "");
    u.title = s("Set");
    u.uploader = s("Band");
    u.chapters = Some(vec![chapter(0, 10, "a"), chapter(10, 20, "b"), chapter(20, 30, "c")]);
    let mut album = FullVideoAlbum::from(u);
    album.add_chapter();
    assert_eq!(album.chapters.len(), 4);
    assert_eq!(album.songs.len(), 4);
    assert_eq!(album.chapters[3].title, "New Chapter");
    assert_eq!(album.songs[3].artist, "Band");
    assert_eq!(album.songs[3].album, "Set");
    album.marked = Some(1);
    album.remove_marked();
    assert_eq!(album.marked, None);
    let titles: Vec<&str> = album.chapters.iter().map(|c| c.title.as_str()).collect();
    assert_eq!(titles, vec!["a", "c", "New Chapter"]);
    let tracks: Vec<&str> = album.songs.iter().map(|t| t.track.as_str()).collect();
    assert_eq!(tracks, vec!["a", "c", ""]);
    album.marked = Some(7);
    album.remove_marked();
    assert_eq!(album.chapters.len(), 3);
    assert_eq!(album.songs.len(), 3);
}

#[test]
fn full_video_playlist_pairs() {
    let mut u = info("https://v/full", "", "");
    u.chapters = Some(vec![chapter(0, 10, "a")]);
    let mut playlist = FullVideoPlaylist::from(u);
    assert_eq!(playlist.songs[0].track, "a");
    assert_eq!(playlist.songs[0].artist, "");
    playlist.add_chapter();
    assert_eq!(playlist.chapters.len(), 2);
    assert_eq!(playlist.songs.len(), 2);
    playlist.marked = Some(0);
    playlist.remove_marked();
    assert_eq!(playlist.chapters[0].title, "New Chapter");
    assert_eq!(playlist.songs.len(), 1);
    let empty = FullVideoPlaylist::from(info("https://v/none", "", ""));
    assert!(empty.chapters.is_empty() && empty.songs.is_empty());
}

#[test]
fn shared_fields_are_broadcast() {
    let mut album = Album::from(vec![info("https://v/1", "One", "X"), info("https://v/2", "Two", "Y")]);
    album.album_title = s("Greatest");
    album.album_artist = s("Band");
    album.apply_album_title();
    album.apply_album_artist();
    album.use_thumbnail = false;
    album.cover_path = Some(s("/c.png"));
    album.apply_cover();
    for t in &album.songs {
        assert_eq!(t.album, "Greatest");
        assert_eq!(t.artist, "Band");
        assert!(!t.use_thumbnail);
        assert_eq!(t.cover_path, Some(s("/c.png")));
    }
    assert_eq!(album.songs[1].track, "Two");
}

#[test]
fn playlist_cover_broadcast() {
    let mut playlist = Playlist::from(vec![info("https://v/1", "One", "X")]);
    playlist.use_thumbnail = false;
    playlist.apply_cover();
    assert!(!playlist.songs[0].use_thumbnail);
    assert_eq!(playlist.songs[0].cover_path, None);
}

#[test]
fn jpg_paths() {
    assert_eq!(convert_jpg("/a/b.webp"), "/a/b.jpg");
    assert_eq!(convert_jpg("/a.b/cover"), "/a.b/cover.jpg");
    assert_eq!(convert_jpg("/a/.hidden"), "/a/.hidden.jpg");
    assert_eq!(convert_jpg("x.y.png"), "x.y.jpg");
}

#[test]
fn downloader_command_line() {
    assert_eq!(
        download_video("https://v/1", "S---A.%(ext)s", "/m/singles", true),
        vec![
            s("https://v/1"),
            s("-o"),
            s("S---A.%(ext)s"),
            s("--paths"),
            s("/m/singles"),
            s("--extract-audio"),
            s("--audio-format"),
            s("mp3"),
            s("--write-thumbnail"),
        ]
    );
    assert_eq!(download_video("u", "t", "d", false).len(), 8);
}

#[test]
fn path_helpers() {
    assert_eq!(join("/m", "x"), "/m/x");
    assert_eq!(join("/m/", "x"), "/m/x");
    assert_eq!(join("", "x"), "x");
    assert_eq!(file_name_of("/a/b/c.png"), "c.png");
    assert_eq!(file_name_of("c.png"), "c.png");
    assert_eq!(file_name_of("/a/"), "");
    assert_eq!(rfind("a/b/c", '/'), Some(3));
    assert_eq!(rfind("abc", '/'), None);
    assert!(contains_str("ab---FULL.mp3", "---FULL"));
    assert!(!contains_str("ab--FULL", "---FULL"));
    assert_eq!(stem("T", "A"), "T---A");
    assert_eq!(index_contents(&vec![s("a"), s("b")]), "a\nb\n");
    assert_eq!(index_contents(&vec![]), "");
}

#[test]
fn track_steps_with_number() {
    let song = track("https://v/1", "T", "A");
    let steps = track_steps(&song, "/d", "T---A", Some(4));
    assert_eq!(tag_numbers(&steps), vec![Some(4)]);
}

#[test]
fn cover_without_file_name_is_skipped() {
    let (steps, cover) = resolve_cover(&Some(s("/pics/")), true, "/m", "S---A");
    assert!(steps.is_empty());
    assert_eq!(cover, None);
}

#[test]
fn session_fetch_and_clear() {
    let mut app = MyApp::new(s("/m"));
    app.current_url_string = s("https://v/list");
    app.current_download_type = DownloadType::Album;
    app.fetch(vec![info("https://v/1", "One", "X"), info("https://v/2", "Two", "X")]);
    match &app.content {
        Some(Content::Album(a)) => assert_eq!(a.songs.len(), 2),
        _ => panic!("expected an album"),
    }
    assert_eq!(tag_numbers(&app.download()), vec![Some(1), Some(2)]);
    app.clear_content();
    assert!(app.content.is_none());
    assert_eq!(app.current_url_string, "");
    assert!(app.download().is_empty());
    app.current_download_type = DownloadType::Single;
    app.fetch(vec![]);
    assert!(app.content.is_none());
    app.fetch(vec![info("https://v/9", "Nine", "Z")]);
    match &app.content {
        Some(Content::Single(t)) => assert_eq!(t.track, "Nine"),
        _ => panic!("expected a single"),
    }
}
