//! What the bytes of an image tell: its format and its size.

use crate::download::rows::ImageMeta;
use vstd::prelude::*;

verus! {

/// Makes `image::ImageFormat` known, the format of an image as the `image`
/// crate names it. Nothing is said of what a value holds: a format is only
/// handed from `guess_format` to `extensions_str`.
#[verifier::external_type_specification]
#[verifier::external_body]
pub struct ExImageFormat(image::ImageFormat);

/// The format that `image::guess_format` finds from the first bytes, if it
/// knows them.
pub uninterp spec fn guessed_format(bytes: Seq<u8>) -> Option<image::ImageFormat>;

/// The file extensions that `ImageFormat::extensions_str` lists for a format.
pub uninterp spec fn format_extensions(format: image::ImageFormat) -> Seq<Seq<char>>;

/// Width and height of the image that `image::load_from_memory` decodes, if
/// it can decode the bytes.
pub uninterp spec fn decoded_size(bytes: Seq<u8>) -> Option<(u32, u32)>;

/// Calls `image::guess_format`: the format is a function of the bytes alone,
/// and there is none where the first bytes are not known.
#[verifier::external_body]
fn guess_format(bytes: &[u8]) -> (format: Option<image::ImageFormat>)
    ensures
        format == guessed_format(bytes@),
{
    image::guess_format(bytes).ok()
}

/// Calls `ImageFormat::extensions_str` and hands the list out as strings.
#[verifier::external_body]
fn extensions_str(format: image::ImageFormat) -> (list: Vec<String>)
    ensures
        list@.len() == format_extensions(format).len(),
        forall|i: int|
            0 <= i < list@.len() ==> (#[trigger] list@[i])@ == format_extensions(format)[i],
{
    format.extensions_str().iter().map(|s| s.to_string()).collect()
}

/// Calls `image::load_from_memory` and reads width and height off the
/// decoded image. They are a function of the bytes alone, and there are none
/// where the bytes cannot be decoded.
#[verifier::external_body]
fn load_dimensions(bytes: &[u8]) -> (size: Option<(u32, u32)>)
    ensures
        size == decoded_size(bytes@),
{
    image::load_from_memory(bytes).ok().map(|decoded| (decoded.width(), decoded.height()))
}

/// The first of a list of texts, or the empty text where there is none.
pub open spec fn first_or_empty(list: Seq<Seq<char>>) -> Seq<char> {
    if list.len() > 0 {
        list[0]
    } else {
        Seq::empty()
    }
}

/// The first extension of a list, or the empty text for an empty list.
pub fn first_extension(list: Vec<String>) -> (extension: String)
    ensures
        extension@ == if list@.len() > 0 {
            list@[0]@
        } else {
            Seq::<char>::empty()
        },
{
    if list.len() > 0 {
        list[0].clone()
    } else {
        String::new()
    }
}

/// What is known of an image once its bytes are there: the first extension
/// of its format and its size, provided that the format is known and the
/// bytes can be decoded.
pub open spec fn probed(bytes: Seq<u8>) -> Option<(Seq<char>, u32, u32)> {
    match (guessed_format(bytes), decoded_size(bytes)) {
        (Some(format), Some(size)) => Some(
            (first_or_empty(format_extensions(format)), size.0, size.1),
        ),
        _ => None,
    }
}

/// The image data `meta` says what `probe` says.
pub open spec fn meta_is(meta: Option<ImageMeta>, probe: Option<(Seq<char>, u32, u32)>) -> bool {
    match meta {
        Some(m) => probe == Some((m.format@, m.width, m.height)),
        None => probe is None,
    }
}

/// What is known of an image whose format has the extensions `list` and
/// whose size is `size`, if it could be decoded: the first extension, or the
/// empty text where there is none, with the size.
pub fn image_meta_of(list: Vec<String>, size: Option<(u32, u32)>) -> (meta: Option<ImageMeta>)
    ensures
        match size {
            Some((width, height)) => {
                &&& meta matches Some(m)
                &&& m.width == width
                &&& m.height == height
                &&& m.format@ == if list@.len() > 0 {
                    list@[0]@
                } else {
                    Seq::<char>::empty()
                }
            },
            None => meta is None,
        },
{
    let format = first_extension(list);
    match size {
        Some((width, height)) => Some(ImageMeta { format, width, height }),
        None => None,
    }
}

/// Finds format and size of an image from its bytes. There is no result
/// where the format is not known or the bytes cannot be decoded.
pub fn probe_image(bytes: &[u8]) -> (meta: Option<ImageMeta>)
    ensures
        meta_is(meta, probed(bytes@)),
{
    match guess_format(bytes) {
        Some(format) => {
            let list = extensions_str(format);
            proof {
                if list@.len() > 0 {
                    assert(list@[0]@ == format_extensions(format)[0]);
                }
            }
            image_meta_of(list, load_dimensions(bytes))
        },
        None => None,
    }
}

} // verus!
