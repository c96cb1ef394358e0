//! Serving an image under a cache key: from the image cache, from what was
//! downloaded, or by a fetch.

use crate::cache::image_cache::{has_image, touched, ImageCache, ImageCacheRow};
use crate::digest::{file_name_of, local_file_name};
use crate::download::rows::ImageMeta;
use crate::local_image::{find_local_image, is_local_image};
use crate::download::store::TaskStore;
use crate::image_probe::{meta_is, probe_image, probed};
use crate::paths::{get_cache_path, AppDirs};
use crate::text::{joined, path_separator};
use crate::udto::UiCacheImage;
use vstd::prelude::*;

verus! {

/// An image that is asked for: the key to keep it under, where it comes
/// from, and what the caller wants kept with it.
#[derive(Default, Debug, Clone, PartialEq)]
pub struct CacheImageRequest {
    pub cache_key: String,
    pub url: String,
    pub useful: String,
    pub extends_field_first: Option<String>,
    pub extends_field_second: Option<String>,
    pub extends_field_third: Option<String>,
}

/// How an image that is asked for is served.
#[derive(Debug, Clone, PartialEq)]
pub enum CacheImagePlan {
    /// The image is there locally.
    Ready(UiCacheImage),
    /// The image has to be fetched from its URL. Its bytes go into the file
    /// `abs_path`, which has the name `local_path` in the directory of the
    /// cached images.
    Fetch { local_path: String, abs_path: String },
}

/// Why a fetched image was not cached.
#[derive(Clone, Copy, Debug, PartialEq, Eq, Structural)]
pub enum CacheImageError {
    /// The format of the bytes is not known, or they cannot be decoded.
    Decode,
    /// An image is cached under the key already.
    DuplicateKey,
}

/// How an image is served. What is there locally under the key is served:
/// from the image cache first, where the hit is noted with the time, then
/// from the downloaded covers, then from the downloaded pages. Only where
/// none of them has the key is the image fetched, into the file that is
/// named after its URL.
pub open spec fn lookup_rel(
    pre: ImageCache,
    store: TaskStore,
    dirs: AppDirs,
    cache_key: Seq<char>,
    url: Seq<char>,
    now: i64,
    plan: CacheImagePlan,
    post: ImageCache,
) -> bool {
    &&& post.rows@ == pre.rows@.map_values(
        |row: ImageCacheRow|
            if row.cache_key@ == cache_key {
                touched(row, now)
            } else {
                row
            },
    )
    &&& match plan {
        CacheImagePlan::Ready(ui) => is_local_image(pre, store, dirs, cache_key, Some(ui)),
        CacheImagePlan::Fetch { local_path, abs_path } => {
            &&& is_local_image(pre, store, dirs, cache_key, None)
            &&& local_path@ == file_name_of(url)
            &&& abs_path@ == joined(seq![dirs.image_cache_dir@, local_path@], path_separator())
        },
    }
}

/// Looks for an image under `cache_key` in what is there locally, and notes
/// a hit in the image cache with the time `now`. Where nothing has the key,
/// says into which file the image is to be fetched.
pub fn cache_image_lookup(
    images: &mut ImageCache,
    store: &TaskStore,
    dirs: &AppDirs,
    cache_key: &String,
    url: &String,
    now: i64,
) -> (plan: CacheImagePlan)
    requires
        old(images).wf(),
    ensures
        final(images).wf(),
        lookup_rel(*old(images), *store, *dirs, cache_key@, url@, now, plan, *final(images)),
{
    let found = find_local_image(images, store, dirs, cache_key);
    images.update_cache_time(cache_key, now);
    assert(images.rows@ =~= old(images).rows@.map_values(
        |row: ImageCacheRow|
            if row.cache_key@ == cache_key@ {
                touched(row, now)
            } else {
                row
            },
    ));
    match found {
        Some(ui) => CacheImagePlan::Ready(ui),
        None => {
            let local_path = local_file_name(url.as_str());
            let abs_path = get_cache_path(dirs, local_path.as_str());
            CacheImagePlan::Fetch { local_path, abs_path }
        },
    }
}

/// The record under which a fetched image is cached.
pub open spec fn cached_row(
    request: CacheImageRequest,
    local_path: String,
    meta: ImageMeta,
    now: i64,
) -> ImageCacheRow {
    ImageCacheRow {
        cache_key: request.cache_key,
        url: request.url,
        useful: request.useful,
        extends_field_first: request.extends_field_first,
        extends_field_second: request.extends_field_second,
        extends_field_third: request.extends_field_third,
        local_path,
        cache_time: now,
        image_format: meta.format,
        image_width: meta.width,
        image_height: meta.height,
    }
}

/// What caching a fetched image does. With nothing decoded nothing is
/// cached; nor is anything where the key is taken. Otherwise the image is
/// recorded at the end of the table, in the file that is named after its
/// URL, and shown with the path of that file.
pub open spec fn record_rel(
    pre: ImageCache,
    dirs: AppDirs,
    request: CacheImageRequest,
    probe: Option<ImageMeta>,
    now: i64,
    result: Result<UiCacheImage, CacheImageError>,
    post: ImageCache,
) -> bool {
    match probe {
        None => result == Err::<UiCacheImage, CacheImageError>(CacheImageError::Decode)
            && post.rows@ == pre.rows@,
        Some(meta) => if has_image(pre.rows@, request.cache_key@) {
            result == Err::<UiCacheImage, CacheImageError>(CacheImageError::DuplicateKey)
                && post.rows@ == pre.rows@
        } else {
            &&& result matches Ok(ui)
            &&& post.rows@.len() == pre.rows@.len() + 1
            &&& post.rows@.last().local_path@ == file_name_of(request.url@)
            &&& post.rows@ == pre.rows@.push(
                cached_row(request, post.rows@.last().local_path, meta, now),
            )
            &&& UiCacheImage::converts_image_cache(dirs, post.rows@.last(), ui)
        },
    }
}

/// Caches an image whose bytes were fetched and probed. `probe` is what
/// decoding found, or nothing where the bytes are no image.
pub fn cache_image_record(
    images: &mut ImageCache,
    dirs: &AppDirs,
    request: CacheImageRequest,
    probe: Option<ImageMeta>,
    now: i64,
) -> (result: Result<UiCacheImage, CacheImageError>)
    requires
        old(images).wf(),
    ensures
        final(images).wf(),
        record_rel(*old(images), *dirs, request, probe, now, result, *final(images)),
{
    let meta = match probe {
        Some(meta) => meta,
        None => {
            return Err(CacheImageError::Decode);
        },
    };
    let local_path = local_file_name(request.url.as_str());
    let model = ImageCacheRow {
        cache_key: request.cache_key,
        url: request.url,
        useful: request.useful,
        extends_field_first: request.extends_field_first,
        extends_field_second: request.extends_field_second,
        extends_field_third: request.extends_field_third,
        local_path,
        cache_time: now,
        image_format: meta.format,
        image_width: meta.width,
        image_height: meta.height,
    };
    let ui = UiCacheImage::from((dirs, &model));
    if images.insert(model) {
        Ok(ui)
    } else {
        Err(CacheImageError::DuplicateKey)
    }
}

/// What caching the bytes of a fetched image does: what `record_rel` says of
/// what the bytes decode to.
pub open spec fn store_rel(
    pre: ImageCache,
    dirs: AppDirs,
    request: CacheImageRequest,
    bytes: Seq<u8>,
    now: i64,
    result: Result<UiCacheImage, CacheImageError>,
    post: ImageCache,
) -> bool {
    exists|probe: Option<ImageMeta>|
        meta_is(probe, probed(bytes)) && #[trigger] record_rel(
            pre,
            dirs,
            request,
            probe,
            now,
            result,
            post,
        )
}

/// Caches an image whose bytes were fetched: finds its format and size, and
/// records it. The bytes themselves are to be written to the file whose path
/// the result holds.
pub fn cache_image_store(
    images: &mut ImageCache,
    dirs: &AppDirs,
    request: CacheImageRequest,
    bytes: &[u8],
    now: i64,
) -> (result: Result<UiCacheImage, CacheImageError>)
    requires
        old(images).wf(),
    ensures
        final(images).wf(),
        store_rel(*old(images), *dirs, request, bytes@, now, result, *final(images)),
{
    let probe = probe_image(bytes);
    let ghost seen = probe;
    let result = cache_image_record(images, dirs, request, probe, now);
    assert(record_rel(*old(images), *dirs, request, seen, now, result, *images));
    result
}

/// In a well-formed image cache two images from one URL lie in one
/// file, whatever their keys.
pub proof fn lemma_one_file_per_url(cache: ImageCache, i: int, j: int)
    requires
        cache.wf(),
        0 <= i < cache.rows@.len(),
        0 <= j < cache.rows@.len(),
        cache.rows@[i].url@ == cache.rows@[j].url@,
    ensures
        cache.rows@[i].local_path@ == cache.rows@[j].local_path@,
{
}

} // verus!
