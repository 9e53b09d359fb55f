use vstd::prelude::*;
use crate::model::{UrlInfo, Single, single_of};
use crate::content::{
    Content,
    Playlist,
    Album,
    FullVideoPlaylist,
    FullVideoAlbum,
    playlist_of,
    album_of,
    full_video_playlist_of,
    full_video_album_of,
};
use crate::steps::{Step, views};
use crate::download::content_plan;

verus! {

/// The shape that the next fetch is read as.
#[derive(Clone, Copy, Debug, PartialEq, Eq, Structural)]
pub enum DownloadType {
    Single,
    Playlist,
    Album,
    FullVideoPlaylist,
    FullVideoAlbum,
}

impl Default for DownloadType {
    fn default() -> (r: DownloadType)
        ensures
            r == DownloadType::Single,
    {
        DownloadType::Single
    }
}

/// The state behind the window: where downloads go, the address typed in,
/// the chosen shape and what the last fetch produced.
pub struct MyApp {
    pub base_download_dir: String,
    pub current_url_string: String,
    pub current_download_type: DownloadType,
    pub content: Option<Content>,
}

/// Whether `c` is what a fetch of `urls` read as `kind` produces: nothing
/// for an empty fetch; otherwise a single track, a chaptered playlist or a
/// chaptered album from the first description, or a playlist or an album of
/// all of them.
pub open spec fn fetched_content(c: Option<Content>, kind: DownloadType, urls: Seq<UrlInfo>) -> bool {
    if urls.len() == 0 {
        c.is_none()
    } else {
        match kind {
            DownloadType::Single => c == Some(Content::Single(single_of(urls[0]))),
            DownloadType::Playlist => match c {
                Some(Content::Playlist(p)) => playlist_of(p, urls),
                _ => false,
            },
            DownloadType::Album => match c {
                Some(Content::Album(a)) => album_of(a, urls),
                _ => false,
            },
            DownloadType::FullVideoPlaylist => match c {
                Some(Content::FullVideoPlaylist(p)) => full_video_playlist_of(p, urls[0]),
                _ => false,
            },
            DownloadType::FullVideoAlbum => match c {
                Some(Content::FullVideoAlbum(a)) => full_video_album_of(a, urls[0]),
                _ => false,
            },
        }
    }
}

impl MyApp {
    /// Whatever content is held keeps its chapters and tracks paired.
    pub open spec fn wf(&self) -> bool {
        match self.content {
            Some(c) => c.wf(),
            None => true,
        }
    }

    /// A session that downloads under `base_download_dir`, with nothing fetched.
    pub fn new(base_download_dir: String) -> (r: MyApp)
        ensures
            r.wf(),
            r.base_download_dir == base_download_dir,
            r.current_url_string@.len() == 0,
            r.current_download_type == DownloadType::Single,
            r.content.is_none(),
    {
        MyApp {
            base_download_dir,
            current_url_string: String::new(),
            current_download_type: DownloadType::Single,
            content: None,
        }
    }

    /// Forgets the address and the fetched content.
    pub fn clear_content(&mut self)
        ensures
            final(self).wf(),
            final(self).current_url_string@.len() == 0,
            final(self).content.is_none(),
            final(self).base_download_dir == old(self).base_download_dir,
            final(self).current_download_type == old(self).current_download_type,
    {
        self.current_url_string = String::new();
        self.content = None;
    }

    /// Takes in the descriptions that a fetch produced, read as the chosen shape.
    pub fn fetch(&mut self, urls: Vec<UrlInfo>)
        ensures
            final(self).wf(),
            fetched_content(final(self).content, old(self).current_download_type, urls@),
            final(self).base_download_dir == old(self).base_download_dir,
            final(self).current_url_string == old(self).current_url_string,
            final(self).current_download_type == old(self).current_download_type,
    {
        if urls.len() == 0 {
            self.content = None;
            return;
        }
        let mut urls = urls;
        self.content = match self.current_download_type {
            DownloadType::Single => Some(Content::Single(Single::from(urls.swap_remove(0)))),
            DownloadType::Playlist => Some(Content::Playlist(Playlist::from(urls))),
            DownloadType::Album => Some(Content::Album(Album::from(urls))),
            DownloadType::FullVideoPlaylist => Some(
                Content::FullVideoPlaylist(FullVideoPlaylist::from(urls.swap_remove(0))),
            ),
            DownloadType::FullVideoAlbum => Some(
                Content::FullVideoAlbum(FullVideoAlbum::from(urls.swap_remove(0))),
            ),
        };
    }

    /// The work that downloads the fetched content, if any, under the
    /// download directory.
    pub fn download(&self) -> (r: Vec<Step>)
        requires
            self.wf(),
        ensures
            match self.content {
                Some(c) => views(r@) == content_plan(c, self.base_download_dir@),
                None => r@.len() == 0,
            },
    {
        match &self.content {
            Some(c) => c.download(self.base_download_dir.as_str()),
            None => Vec::new(),
        }
    }
}

} // verus!
