use vstd::prelude::*;
use crate::caption::{caption_from_text, trimmed};

verus! {

/// The metadata extracted for one image.
#[derive(Debug)]
pub struct SubsetInfo {
    /// The trimmed text of the image's caption file.
    pub caption: String,
    /// Pixel width and height.
    pub resolution: (u32, u32),
}

impl View for SubsetInfo {
    type V = (Seq<char>, (u32, u32));

    open spec fn view(&self) -> (Seq<char>, (u32, u32)) {
        (self.caption@, self.resolution)
    }
}

impl PartialEq for SubsetInfo {
    fn eq(&self, o: &SubsetInfo) -> (r: bool) {
        self.caption == o.caption && self.resolution.0 == o.resolution.0 && self.resolution.1
            == o.resolution.1
    }
}

impl vstd::std_specs::cmp::PartialEqSpecImpl for SubsetInfo {
    open spec fn obeys_eq_spec() -> bool {
        true
    }

    open spec fn eq_spec(&self, o: &SubsetInfo) -> bool {
        self@ == o@
    }
}

impl Eq for SubsetInfo {

}

/// One record of the metadata cache: the canonical path of an image and what
/// was extracted from it.
#[derive(Debug)]
pub struct CacheEntry {
    pub key: String,
    pub info: SubsetInfo,
}

impl View for CacheEntry {
    type V = (Seq<char>, (Seq<char>, (u32, u32)));

    open spec fn view(&self) -> (Seq<char>, (Seq<char>, (u32, u32))) {
        (self.key@, self.info@)
    }
}

/// Why the image of a candidate could not be measured.
#[derive(Debug)]
pub enum ImageFailure {
    /// The image file could not be opened.
    Open(String),
    /// The image header could not be read or understood.
    Header(String),
}

/// The step of an extraction that failed, with the underlying message.
#[derive(Debug)]
pub enum ExtractionCause {
    ImageOpen(String),
    CaptionRead(String),
    ImageHeader(String),
    Canonicalize(String),
}

/// The failure of the extraction of one candidate.
#[derive(Debug)]
pub struct ExtractionError {
    /// The candidate's path.
    pub path: String,
    pub cause: ExtractionCause,
}

/// The words that name the failed step, then the underlying message.
pub open spec fn cause_text(c: ExtractionCause) -> Seq<char> {
    match c {
        ExtractionCause::ImageOpen(m) => ": cannot open image: "@ + m@,
        ExtractionCause::CaptionRead(m) => ": cannot read caption: "@ + m@,
        ExtractionCause::ImageHeader(m) => ": cannot read image size: "@ + m@,
        ExtractionCause::Canonicalize(m) => ": cannot resolve path: "@ + m@,
    }
}

impl ExtractionError {
    /// A one-line description of the failure, naming the candidate's path,
    /// the failed step and the underlying message.
    pub fn message(&self) -> (r: String)
        ensures
            r@ == "failed to extract metadata of "@ + self.path@ + cause_text(self.cause),
    {
        let mut s = "failed to extract metadata of ".to_owned();
        s.append(self.path.as_str());
        let (what, detail) = match &self.cause {
            ExtractionCause::ImageOpen(m) => (": cannot open image: ", m),
            ExtractionCause::CaptionRead(m) => (": cannot read caption: ", m),
            ExtractionCause::ImageHeader(m) => (": cannot read image size: ", m),
            ExtractionCause::Canonicalize(m) => (": cannot resolve path: ", m),
        };
        s.append(what);
        s.append(detail.as_str());
        s
    }
}

/// Builds the cache record of one candidate from the outcomes of its three
/// steps: measuring the image, reading the caption file and resolving the
/// canonical path. The first step that failed, in the order in which the
/// extraction performs them (open the image, read the caption, read the
/// image header, resolve the path), gives the error.
pub fn build_record(
    path: String,
    image: Result<(u32, u32), ImageFailure>,
    caption_text: Result<String, String>,
    canonical: Result<String, String>,
) -> (r: Result<CacheEntry, ExtractionError>)
    ensures
        match (image, caption_text, canonical) {
            (Err(ImageFailure::Open(m)), _, _) => r == Err::<CacheEntry, ExtractionError>(
                (ExtractionError { path, cause: ExtractionCause::ImageOpen(m) }),
            ),
            (_, Err(m), _) => r == Err::<CacheEntry, ExtractionError>(
                (ExtractionError { path, cause: ExtractionCause::CaptionRead(m) }),
            ),
            (Err(ImageFailure::Header(m)), _, _) => r == Err::<CacheEntry, ExtractionError>(
                (ExtractionError { path, cause: ExtractionCause::ImageHeader(m) }),
            ),
            (_, _, Err(m)) => r == Err::<CacheEntry, ExtractionError>(
                (ExtractionError { path, cause: ExtractionCause::Canonicalize(m) }),
            ),
            (Ok(dims), Ok(text), Ok(key)) => r is Ok && r->Ok_0.key == key
                && r->Ok_0.info.caption@ == trimmed(text@) && r->Ok_0.info.resolution == dims,
        },
{
    if let Err(ImageFailure::Open(m)) = image {
        return Err(ExtractionError { path, cause: ExtractionCause::ImageOpen(m) });
    }
    let text = match caption_text {
        Err(m) => {
            return Err(ExtractionError { path, cause: ExtractionCause::CaptionRead(m) });
        },
        Ok(t) => t,
    };
    let dims = match image {
        Err(ImageFailure::Header(m)) => {
            return Err(ExtractionError { path, cause: ExtractionCause::ImageHeader(m) });
        },
        Err(ImageFailure::Open(m)) => {
            return Err(ExtractionError { path, cause: ExtractionCause::ImageOpen(m) });
        },
        Ok(d) => d,
    };
    let key = match canonical {
        Err(m) => {
            return Err(ExtractionError { path, cause: ExtractionCause::Canonicalize(m) });
        },
        Ok(k) => k,
    };
    let caption = caption_from_text(text.as_str());
    Ok(CacheEntry { key, info: SubsetInfo { caption, resolution: dims } })
}

} // verus!
