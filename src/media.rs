use vstd::prelude::*;

verus! {

/// The file extensions of the format that the image crate guesses from the leading
/// bytes; `None` where it recognises no format.
pub uninterp spec fn format_extensions_of(b: Seq<u8>) -> Option<Seq<Seq<char>>>;

/// Width and height of the image that the image crate decodes from the bytes as
/// the format it guesses for them; `None` where they do not decode.
pub uninterp spec fn dimensions_of(b: Seq<u8>) -> Option<(u32, u32)>;

pub open spec fn texts(v: Seq<String>) -> Seq<Seq<char>> {
    v.map_values(|t: String| t@)
}

pub open spec fn opt_texts(o: Option<Vec<String>>) -> Option<Seq<Seq<char>>> {
    match o {
        Some(v) => Some(texts(v@)),
        None => None,
    }
}

/// Relies on image::guess_format and ImageFormat::extensions_str: the format is
/// guessed from the bytes alone.
#[verifier::external_body]
fn guessed_extensions(data: &Vec<u8>) -> (r: Option<Vec<String>>)
    ensures
        opt_texts(r) == format_extensions_of(data@),
{
    match image::guess_format(data.as_slice()) {
        Ok(f) => Some(f.extensions_str().iter().map(|e| e.to_string()).collect()),
        Err(_) => None,
    }
}

/// Relies on image::guess_format and image::load_from_memory_with_format, with
/// DynamicImage::width and height: the bytes are decoded as the built-in format
/// guessed from their leading bytes, which bypasses the crate's registries of
/// detection and decoding hooks, so the size depends on the bytes alone.
#[verifier::external_body]
fn decoded_dimensions(data: &Vec<u8>) -> (r: Option<(u32, u32)>)
    ensures
        r == dimensions_of(data@),
{
    match image::guess_format(data.as_slice()) {
        Ok(f) => match image::load_from_memory_with_format(data.as_slice(), f) {
            Ok(img) => Some((img.width(), img.height())),
            Err(_) => None,
        },
        Err(_) => None,
    }
}

/// What is recorded of a page whose bytes were accepted.
#[derive(Clone, Debug, PartialEq, Eq)]
pub struct ImageMeta {
    pub width: u32,
    pub height: u32,
    pub format: String,
}

impl ImageMeta {
    pub open spec fn view(&self) -> (u32, u32, Seq<char>) {
        (self.width, self.height, self.format@)
    }
}

pub open spec fn opt_meta(o: Option<ImageMeta>) -> Option<(u32, u32, Seq<char>)> {
    match o {
        Some(m) => Some(m.view()),
        None => None,
    }
}

/// The short format label: the first known extension, or empty.
pub open spec fn label_of(exts: Seq<Seq<char>>) -> Seq<char> {
    if exts.len() > 0 {
        exts[0]
    } else {
        Seq::empty()
    }
}

/// Bytes are accepted when a format is recognised and they decode.
pub open spec fn meta_spec(exts: Option<Seq<Seq<char>>>, dims: Option<(u32, u32)>) -> Option<(u32, u32, Seq<char>)> {
    match (exts, dims) {
        (Some(e), Some(d)) => Some((d.0, d.1, label_of(e))),
        _ => None,
    }
}

/// The format label from a format's list of extensions.
pub fn format_label(exts: &Vec<String>) -> (r: String)
    ensures
        r@ == label_of(texts(exts@)),
{
    if exts.len() > 0 {
        exts[0].clone()
    } else {
        String::new()
    }
}

/// The metadata from the guessed format and the decoded size.
pub fn meta_from(exts: Option<Vec<String>>, dims: Option<(u32, u32)>) -> (r: Option<ImageMeta>)
    ensures
        opt_meta(r) == meta_spec(opt_texts(exts), dims),
{
    match (exts, dims) {
        (Some(e), Some(d)) => Some(ImageMeta { width: d.0, height: d.1, format: format_label(&e) }),
        _ => None,
    }
}

/// Classifies and decodes fetched bytes.
pub fn inspect_image(data: &Vec<u8>) -> (r: Option<ImageMeta>)
    ensures
        opt_meta(r) == meta_spec(format_extensions_of(data@), dimensions_of(data@)),
{
    let exts = guessed_extensions(data);
    let dims = decoded_dimensions(data);
    meta_from(exts, dims)
}

/// How a page ends: with its metadata, or failed.
#[derive(Clone, Debug, PartialEq, Eq)]
pub enum PageOutcome {
    Success(ImageMeta),
    Failed,
}

pub open spec fn outcome_view(o: PageOutcome) -> Option<(u32, u32, Seq<char>)> {
    match o {
        PageOutcome::Success(m) => Some(m.view()),
        PageOutcome::Failed => None,
    }
}

/// The outcome of a page from what its fetch returned: failed where the fetch
/// failed or the bytes are not an image this library can read.
pub open spec fn download_outcome_of(fetched: Option<Seq<u8>>) -> Option<(u32, u32, Seq<char>)> {
    match fetched {
        Some(b) => meta_spec(format_extensions_of(b), dimensions_of(b)),
        None => None,
    }
}

/// The outcome from the inspected metadata.
pub fn outcome_from(meta: Option<ImageMeta>) -> (r: PageOutcome)
    ensures
        outcome_view(r) == opt_meta(meta),
{
    match meta {
        Some(m) => PageOutcome::Success(m),
        None => PageOutcome::Failed,
    }
}

/// The outcome of a page from the bytes that its fetch returned, if it returned any.
pub fn judge_download(fetched: &Option<Vec<u8>>) -> (r: PageOutcome)
    ensures
        outcome_view(r) == download_outcome_of(
            match fetched {
                Some(b) => Some(b@),
                None => None,
            },
        ),
{
    match fetched {
        Some(b) => outcome_from(inspect_image(b)),
        None => PageOutcome::Failed,
    }
}

} // verus!
