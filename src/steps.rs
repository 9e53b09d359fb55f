use vstd::prelude::*;
use crate::model::opt_view;

verus! {

/// One piece of outside work in the assembly of a download, in the order in
/// which it is to be carried out.
#[derive(Debug, PartialEq, Eq)]
pub enum Step {
    /// Run the downloader on `url`, writing `template` (with its extension
    /// placeholder filled in) under `dir`, and the thumbnail too if asked.
    Acquire { url: String, template: String, dir: String, thumbnail: bool },
    /// Copy the audio between the two times out of `input` into `output`
    /// without re-encoding.
    Split { start_ms: u64, end_ms: u64, input: String, output: String },
    /// Copy a picked image into the output directory.
    CopyFile { from: String, to: String },
    /// Turn the image at `input` into the JPEG file `output`.
    ConvertJpg { input: String, output: String },
    /// Write the tags (and the cover, where one is given and readable) into
    /// the audio file.
    Tag {
        audio: String,
        cover: Option<String>,
        track_no: Option<usize>,
        title: String,
        artist: String,
        album: String,
    },
    /// Write a playlist index file.
    WriteIndex { path: String, contents: String },
    /// Delete the intermediate files of a directory (see `cleanup`).
    Cleanup { dir: String },
}

/// A `Step` with its texts as sequences of characters.
pub enum StepView {
    Acquire { url: Seq<char>, template: Seq<char>, dir: Seq<char>, thumbnail: bool },
    Split { start_ms: u64, end_ms: u64, input: Seq<char>, output: Seq<char> },
    CopyFile { from: Seq<char>, to: Seq<char> },
    ConvertJpg { input: Seq<char>, output: Seq<char> },
    Tag {
        audio: Seq<char>,
        cover: Option<Seq<char>>,
        track_no: Option<usize>,
        title: Seq<char>,
        artist: Seq<char>,
        album: Seq<char>,
    },
    WriteIndex { path: Seq<char>, contents: Seq<char> },
    Cleanup { dir: Seq<char> },
}

impl View for Step {
    type V = StepView;

    open spec fn view(&self) -> StepView {
        match self {
            Step::Acquire { url, template, dir, thumbnail } => StepView::Acquire {
                url: url@,
                template: template@,
                dir: dir@,
                thumbnail: *thumbnail,
            },
            Step::Split { start_ms, end_ms, input, output } => StepView::Split {
                start_ms: *start_ms,
                end_ms: *end_ms,
                input: input@,
                output: output@,
            },
            Step::CopyFile { from, to } => StepView::CopyFile { from: from@, to: to@ },
            Step::ConvertJpg { input, output } => StepView::ConvertJpg {
                input: input@,
                output: output@,
            },
            Step::Tag { audio, cover, track_no, title, artist, album } => StepView::Tag {
                audio: audio@,
                cover: opt_view(*cover),
                track_no: *track_no,
                title: title@,
                artist: artist@,
                album: album@,
            },
            Step::WriteIndex { path, contents } => StepView::WriteIndex {
                path: path@,
                contents: contents@,
            },
            Step::Cleanup { dir } => StepView::Cleanup { dir: dir@ },
        }
    }
}

pub open spec fn views(s: Seq<Step>) -> Seq<StepView> {
    s.map_values(|x: Step| x@)
}

pub open spec fn texts(s: Seq<String>) -> Seq<Seq<char>> {
    s.map_values(|x: String| x@)
}

/// The downloader's arguments: the source, the name template, the output
/// directory, audio extraction to MP3, and the thumbnail where asked for.
pub open spec fn downloader_args(
    url: Seq<char>,
    template: Seq<char>,
    dir: Seq<char>,
    thumbnail: bool,
) -> Seq<Seq<char>> {
    let base = seq![
        url,
        "-o"@,
        template,
        "--paths"@,
        dir,
        "--extract-audio"@,
        "--audio-format"@,
        "mp3"@,
    ];
    if thumbnail {
        base.push("--write-thumbnail"@)
    } else {
        base
    }
}

/// The command line for one acquisition.
pub fn download_video(webpage_url: &str, output_format: &str, dir: &str, thumbnail: bool) -> (r: Vec<
    String,
>)
    ensures
        texts(r@) == downloader_args(webpage_url@, output_format@, dir@, thumbnail),
{
    let mut r: Vec<String> = Vec::new();
    r.push(String::from_str(webpage_url));
    r.push(String::from_str("-o"));
    r.push(String::from_str(output_format));
    r.push(String::from_str("--paths"));
    r.push(String::from_str(dir));
    r.push(String::from_str("--extract-audio"));
    r.push(String::from_str("--audio-format"));
    r.push(String::from_str("mp3"));
    if thumbnail {
        r.push(String::from_str("--write-thumbnail"));
    }
    assert(texts(r@) =~= downloader_args(webpage_url@, output_format@, dir@, thumbnail));
    r
}

/// An index file's text: each path followed by a line break, in order.
pub open spec fn index_text(paths: Seq<Seq<char>>) -> Seq<char>
    decreases paths.len(),
{
    if paths.len() == 0 {
        Seq::empty()
    } else {
        index_text(paths.drop_last()) + paths.last() + seq!['\n']
    }
}

/// The text of a playlist index that lists `paths`.
pub fn index_contents(paths: &Vec<String>) -> (r: String)
    ensures
        r@ == index_text(texts(paths@)),
{
    let mut r = String::new();
    let mut i: usize = 0;
    while i < paths.len()
        invariant
            i <= paths@.len(),
            r@ == index_text(texts(paths@.subrange(0, i as int))),
        decreases paths@.len() - i,
    {
        assert(texts(paths@.subrange(0, i + 1)).drop_last() =~= texts(paths@.subrange(0, i as int)));
        r.append(paths[i].as_str());
        proof {
            reveal_strlit("\n");
        }
        r.append("\n");
        i = i + 1;
    }
    assert(paths@.subrange(0, paths@.len() as int) =~= paths@);
    r
}

} // verus!
