use vstd::prelude::*;

verus! {

/// What the walk of the input directory learned about one entry.
pub struct FileEntry {
    /// The entry's path, as the walk produced it.
    pub path: String,
    /// The extension of the file name, when it has one that is valid text.
    pub extension: Option<String>,
    /// Whether the entry is a regular file.
    pub is_file: bool,
    /// Whether the sibling caption file (same stem, `txt` extension) existed
    /// when the entry was looked at.
    pub caption_exists: bool,
}

/// The image extensions that are considered; the match is case-sensitive.
pub open spec fn is_supported_ext(ext: Seq<char>) -> bool {
    ext == "jpg"@ || ext == "jpeg"@ || ext == "png"@ || ext == "webp"@
}

/// An entry is a candidate when it is a regular file with a supported
/// extension whose caption file exists.
pub open spec fn is_candidate(e: FileEntry) -> bool {
    &&& e.is_file
    &&& e.caption_exists
    &&& match e.extension {
        Some(x) => is_supported_ext(x@),
        None => false,
    }
}

/// The paths of the candidates among `entries`, in their order.
pub open spec fn candidate_paths(entries: Seq<FileEntry>) -> Seq<Seq<char>> {
    entries.filter(|e: FileEntry| is_candidate(e)).map_values(|e: FileEntry| e.path@)
}

/// Among image files of supported types, the candidates are exactly those
/// whose caption file exists: their number is the number of captioned images,
/// and a path is a candidate if and only if it is the path of one of them.
pub proof fn lemma_candidates_are_captioned_images(entries: Seq<FileEntry>)
    requires
        forall|i: int|
            0 <= i < entries.len() ==> {
                let e = #[trigger] entries[i];
                e.is_file && e.extension is Some && is_supported_ext(e.extension->0@)
            },
    ensures
        candidate_paths(entries).len() == entries.filter(|e: FileEntry| e.caption_exists).len(),
        forall|p: Seq<char>|
            candidate_paths(entries).contains(p) <==> exists|i: int|
                0 <= i < entries.len() && entries[i].caption_exists && #[trigger] entries[i].path@
                    == p,
    decreases entries.len(),
{
    reveal(Seq::filter);
    if entries.len() > 0 {
        let rest = entries.drop_last();
        let x = entries.last();
        assert forall|i: int| 0 <= i < rest.len() implies {
            let e = #[trigger] rest[i];
            e.is_file && e.extension is Some && is_supported_ext(e.extension->0@)
        } by {
            assert(rest[i] == entries[i]);
        }
        lemma_candidates_are_captioned_images(rest);
        let fr = rest.filter(|e: FileEntry| is_candidate(e));
        assert(entries[entries.len() - 1] == x);
        if x.caption_exists {
            assert(fr.push(x).map_values(|e: FileEntry| e.path@) =~= fr.map_values(
                |e: FileEntry| e.path@,
            ).push(x.path@));
        }
        assert forall|p: Seq<char>|
            candidate_paths(entries).contains(p) <==> exists|i: int|
                0 <= i < entries.len() && entries[i].caption_exists && #[trigger] entries[i].path@
                    == p by {
            if candidate_paths(entries).contains(p) {
                if candidate_paths(rest).contains(p) {
                    let i = choose|i: int|
                        0 <= i < rest.len() && rest[i].caption_exists && #[trigger] rest[i].path@
                            == p;
                    assert(entries[i] == rest[i]);
                } else {
                    assert(entries[entries.len() - 1].path@ == p);
                }
            }
            if exists|i: int|
                0 <= i < entries.len() && entries[i].caption_exists && #[trigger] entries[i].path@
                    == p {
                let i = choose|i: int|
                    0 <= i < entries.len() && entries[i].caption_exists && #[trigger] entries[i].path@
                        == p;
                if i < rest.len() {
                    assert(rest[i] == entries[i]);
                    assert(candidate_paths(rest).contains(p));
                    let k = candidate_paths(rest).index_of(p);
                    assert(candidate_paths(entries)[k] == p);
                } else {
                    assert(candidate_paths(entries).last() == p);
                }
            }
        }
    } else {
        assert(candidate_paths(entries) =~= Seq::empty());
    }
}

/// Tells whether `ext` is one of the supported image extensions.
pub fn is_supported_extension(ext: &str) -> (r: bool)
    ensures
        r == is_supported_ext(ext@),
{
    let e = ext.to_owned();
    e == "jpg".to_owned() || e == "jpeg".to_owned() || e == "png".to_owned() || e
        == "webp".to_owned()
}

/// Tells whether one directory entry is a candidate for extraction.
pub fn accepts(entry: &FileEntry) -> (r: bool)
    ensures
        r == is_candidate(*entry),
{
    if !entry.is_file || !entry.caption_exists {
        return false;
    }
    match &entry.extension {
        Some(x) => is_supported_extension(x.as_str()),
        None => false,
    }
}

/// The paths of the candidates among `entries`, keeping their order.
pub fn filter_candidates(entries: &Vec<FileEntry>) -> (r: Vec<String>)
    ensures
        r@.map_values(|p: String| p@) == candidate_paths(entries@),
{
    let mut out: Vec<String> = Vec::new();
    let mut i: usize = 0;
    while i < entries.len()
        invariant
            i <= entries.len(),
            out@.map_values(|p: String| p@) == candidate_paths(entries@.subrange(0, i as int)),
        decreases entries.len() - i,
    {
        let e = &entries[i];
        let ok = accepts(e);
        proof {
            let pre = entries@.subrange(0, i as int);
            assert(entries@.subrange(0, i + 1) =~= pre.push(*e));
            pre.lemma_filter_push(*e, |e: FileEntry| is_candidate(e));
        }
        let ghost before = out@;
        if ok {
            out.push(e.path.clone());
            assert(out@ == before.push(e.path));
        }
        proof {
            let pre = entries@.subrange(0, i as int);
            let f = pre.filter(|e: FileEntry| is_candidate(e));
            if ok {
                assert(f.push(*e).map_values(|e: FileEntry| e.path@) =~= f.map_values(
                    |e: FileEntry| e.path@,
                ).push(e.path@));
                assert(before.push(e.path).map_values(|p: String| p@) =~= before.map_values(
                    |p: String| p@,
                ).push(e.path@));
            }
            assert(entries@.subrange(0, i + 1) =~= pre.push(*e));
        }
        i = i + 1;
    }
    assert(entries@.subrange(0, entries.len() as int) =~= entries@);
    out
}

} // verus!
