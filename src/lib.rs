//! Plans and checks the work of turning fetched video descriptions into
//! tagged audio files: naming, chapter splitting, cover choice, playlist
//! index files and the removal of intermediate files.

pub mod text;
pub mod model;
pub mod content;
pub mod sanitize;
pub mod steps;
pub mod plan;
pub mod download;
pub mod cleanup;
pub mod laws;
pub mod session;

pub use cleanup::cleanup;
pub use content::{Album, Content, FullVideoAlbum, FullVideoPlaylist, Playlist};
pub use model::{Chapter, Single, UrlInfo};
pub use steps::{Step, download_video};
pub use text::convert_jpg;
pub use session::{DownloadType, MyApp};
