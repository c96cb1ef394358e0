//! Offline acquisition and content caching for a comic reading client.
//!
//! The library holds the rules and leaves input and output to its caller. It
//! keeps what is queued for download in a task store and says which fetch
//! comes next; the caller fetches and reports how it went. It keeps the
//! answers of the remote service and the images under their keys and says
//! what may be served and what has to go; the caller reads the clock, talks
//! to the service and writes the files.
//!
//! - `download`: the task store, queueing and removing comics, the turns of
//!   the download loop, and what holds of the store whatever is done with it.
//! - `cache`: the cached answers with their time to live, the cached images,
//!   and the cleaning of both.
//! - `local_image`: what is there locally under a cache key, wherever it is
//!   kept.
//! - `api`: what the calls of the user interface decide.
//! - `udto`, `copy_client`, `view_log`: the records that are exchanged.
//! - `paths`, `digest`, `image_probe`, `text`: directories, file names, what
//!   the bytes of an image tell, and text.
//! - `status`, `table`, `count`: the states of a download, tables of records
//!   with keys, and counting.

pub mod api;
pub mod cache;
pub mod copy_client;
pub mod count;
pub mod digest;
pub mod download;
pub mod image_probe;
pub mod local_image;
pub mod paths;
pub mod status;
pub mod table;
pub mod text;
pub mod udto;
pub mod view_log;
