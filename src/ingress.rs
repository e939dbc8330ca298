//! Picking the metadata document and the binary payload out of the files of
//! an incoming request.
use crate::registry::{has_suffix, is_suffix};
use vstd::prelude::*;

verus! {

/// One uploaded file: its name and its bytes.
pub struct UploadedFile {
    pub filename: String,
    pub content: Vec<u8>,
}

/// The files of a request that the operations use.
pub struct Uploads {
    /// The metadata document (a `.json` file).
    pub metadata: Option<Vec<u8>>,
    /// The binary payload (a `.wasm` file).
    pub binary: Option<Vec<u8>>,
}

/// The bytes held by an optional buffer.
pub open spec fn bytes_view(o: Option<Vec<u8>>) -> Option<Seq<u8>> {
    match o {
        Some(v) => Some(v@),
        None => None,
    }
}

/// The content of the last file whose name ends with `suffix`.
pub open spec fn last_with_suffix(files: Seq<UploadedFile>, suffix: Seq<char>) -> Option<Seq<u8>>
    decreases files.len(),
{
    if files.len() == 0 {
        None
    } else if is_suffix(suffix, files.last().filename@) {
        Some(files.last().content@)
    } else {
        last_with_suffix(files.drop_last(), suffix)
    }
}

/// The metadata document is the last `.json` file and the binary the last
/// `.wasm` file; other files are ignored.
pub fn select_uploads(files: &Vec<UploadedFile>) -> (r: Uploads)
    ensures
        bytes_view(r.metadata) == last_with_suffix(files@, ".json"@),
        bytes_view(r.binary) == last_with_suffix(files@, ".wasm"@),
{
    let mut metadata: Option<Vec<u8>> = None;
    let mut binary: Option<Vec<u8>> = None;
    let mut i: usize = 0;
    while i < files.len()
        invariant
            i <= files@.len(),
            bytes_view(metadata) == last_with_suffix(files@.subrange(0, i as int), ".json"@),
            bytes_view(binary) == last_with_suffix(files@.subrange(0, i as int), ".wasm"@),
        decreases files@.len() - i,
    {
        let f = &files[i];
        assert(files@.subrange(0, i + 1).drop_last() =~= files@.subrange(0, i as int));
        assert(files@.subrange(0, i + 1).last() == files@[i as int]);
        if has_suffix(f.filename.as_str(), ".json") {
            let c = f.content.clone();
            assert(c@ =~= f.content@);
            metadata = Some(c);
        }
        if has_suffix(f.filename.as_str(), ".wasm") {
            let c = f.content.clone();
            assert(c@ =~= f.content@);
            binary = Some(c);
        }
        i += 1;
    }
    assert(files@.subrange(0, i as int) =~= files@);
    Uploads { metadata, binary }
}

} // verus!
