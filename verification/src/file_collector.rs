//! Finding the images to process and getting the output location ready.
//!
//! The file system is read elsewhere. What was found there comes in as
//! plain values, and the rules that pick the files and the directory to
//! create are decided here.

use vstd::prelude::*;
use crate::paths::{extension, parent, path_extension_of, path_parent_of, text_of};

verus! {

/// One entry met while walking the input directory.
#[derive(Debug, PartialEq, Eq)]
pub struct WalkEntry {
    /// The entry's path.
    pub path: String,
    /// Whether the entry is a regular file.
    pub is_file: bool,
}

/// The mathematical content of a `WalkEntry`.
pub struct WalkEntryView {
    pub path: Seq<char>,
    pub is_file: bool,
}

impl View for WalkEntry {
    type V = WalkEntryView;

    open spec fn view(&self) -> WalkEntryView {
        WalkEntryView { path: self.path@, is_file: self.is_file }
    }
}

/// What the input path turned out to be.
#[derive(Debug, PartialEq, Eq)]
pub enum InputProbe {
    /// A regular file.
    File,
    /// A directory, with every entry that walking it gave, in walk order.
    Directory(Vec<WalkEntry>),
    /// Neither a file nor a directory.
    Missing,
}

/// Why a run has nothing to work on.
#[derive(Debug, PartialEq, Eq, Clone, Copy)]
pub enum DiscoveryError {
    /// The input path is neither a file nor a directory.
    NotFound,
    /// The input directory holds no file with a supported extension.
    NoImages,
}

/// `c` with an upper-case ASCII letter turned into its lower-case form.
pub open spec fn ascii_lower(c: char) -> char {
    if 'A' <= c && c <= 'Z' {
        ((c as u8) + 32) as char
    } else {
        c
    }
}

/// `s` with every upper-case ASCII letter in lower case.
pub open spec fn lowered(s: Seq<char>) -> Seq<char> {
    s.map_values(|c: char| ascii_lower(c))
}

/// Whether `ext` names a supported raster format, whatever its case.
pub open spec fn supported_extension(ext: Seq<char>) -> bool {
    let low = lowered(ext);
    low == "jpg"@ || low == "jpeg"@ || low == "png"@ || low == "webp"@ || low == "tif"@ || low
        == "tiff"@ || low == "bmp"@
}

/// Whether a walked entry is an image to process: a regular file whose
/// path has a supported extension.
pub open spec fn is_candidate(entry: WalkEntryView) -> bool {
    entry.is_file && match path_extension_of(entry.path) {
        Some(ext) => supported_extension(ext),
        None => false,
    }
}

/// The predicate that picks the candidates among walked entries.
pub open spec fn candidate() -> spec_fn(WalkEntryView) -> bool {
    |entry: WalkEntryView| is_candidate(entry)
}

/// The entries of a vector, each by its view.
pub open spec fn entry_views(entries: Seq<WalkEntry>) -> Seq<WalkEntryView> {
    entries.map_values(|e: WalkEntry| e@)
}

/// The strings of a vector, each by its text.
pub open spec fn texts(list: Seq<String>) -> Seq<Seq<char>> {
    list.map_values(|s: String| s@)
}

/// The paths of the candidates among `entries`, in walk order.
pub open spec fn candidates(entries: Seq<WalkEntryView>) -> Seq<Seq<char>> {
    entries.filter(candidate()).map_values(|e: WalkEntryView| e.path)
}

/// The files a run works on: the input itself where it is a file, the
/// candidates of the walk where it is a directory.
pub open spec fn discovered(input: Seq<char>, probe: InputProbe) -> Seq<Seq<char>> {
    match probe {
        InputProbe::File => seq![input],
        InputProbe::Directory(entries) => candidates(entry_views(entries@)),
        InputProbe::Missing => Seq::empty(),
    }
}

fn lower_char(c: char) -> (low: char)
    ensures
        low == ascii_lower(c),
{
    if 'A' <= c && c <= 'Z' {
        ((c as u8) + 32) as char
    } else {
        c
    }
}

/// Whether `ext`, with its ASCII letters in lower case, is `name`.
fn is_named(ext: &str, name: &str) -> (same: bool)
    ensures
        same == (lowered(ext@) == name@),
{
    let n = ext.unicode_len();
    if n != name.unicode_len() {
        return false;
    }
    let mut i: usize = 0;
    while i < n
        invariant
            i <= n,
            n == ext@.len(),
            n == name@.len(),
            forall|k: int| 0 <= k < i ==> ascii_lower(#[trigger] ext@[k]) == name@[k],
        decreases n - i,
    {
        if lower_char(ext.get_char(i)) != name.get_char(i) {
            assert(lowered(ext@)[i as int] != name@[i as int]);
            return false;
        }
        i = i + 1;
    }
    assert(lowered(ext@) =~= name@);
    true
}

/// Whether a file extension marks a supported raster image. Case is
/// ignored: `PNG` and `png` are the same extension.
pub fn is_supported_extension(ext: &str) -> (supported: bool)
    ensures
        supported == supported_extension(ext@),
{
    is_named(ext, "jpg") || is_named(ext, "jpeg") || is_named(ext, "png") || is_named(ext, "webp")
        || is_named(ext, "tif") || is_named(ext, "tiff") || is_named(ext, "bmp")
}

/// Whether a walked entry is an image to process.
pub fn is_image_entry(entry: &WalkEntry) -> (picked: bool)
    ensures
        picked == is_candidate(entry@),
{
    if !entry.is_file {
        return false;
    }
    match extension(entry.path.as_str()) {
        Some(ext) => is_supported_extension(ext.as_str()),
        None => false,
    }
}

/// Lists the files of a run.
///
/// An input that is a file is taken as it is, whatever its extension. Of an
/// input directory every regular file with a supported extension is taken,
/// in walk order. A run with nothing to work on is an error: `NotFound`
/// where the input is neither file nor directory, `NoImages` where the
/// directory holds no candidate.
pub fn collect_input_files(input: &str, probe: &InputProbe) -> (found: Result<
    Vec<String>,
    DiscoveryError,
>)
    ensures
        found is Ok <==> discovered(input@, *probe).len() > 0,
        found matches Ok(list) ==> texts(list@) == discovered(input@, *probe),
        found matches Err(error) ==> error == if *probe is Missing {
            DiscoveryError::NotFound
        } else {
            DiscoveryError::NoImages
        },
{
    match probe {
        InputProbe::File => {
            let mut list: Vec<String> = Vec::new();
            list.push(input.to_owned());
            assert(texts(list@) =~= seq![input@]);
            Ok(list)
        },
        InputProbe::Missing => Err(DiscoveryError::NotFound),
        InputProbe::Directory(entries) => {
            let ghost all = entry_views(entries@);
            let mut list: Vec<String> = Vec::new();
            let mut i: usize = 0;
            proof {
                        assert(all.take(0) =~= Seq::<WalkEntryView>::empty());
                assert(texts(list@) =~= candidates(all.take(0)));
            }
            while i < entries.len()
                invariant
                    i <= entries.len(),
                    all == entry_views(entries@),
                    texts(list@) == candidates(all.take(i as int)),
                decreases entries.len() - i,
            {
                let entry = &entries[i];
                let ghost seen = all.take(i as int);
                let ghost before = list@;
                proof {
                    assert(all.take(i + 1) =~= seen.push(entry@));
                    seen.lemma_filter_push(entry@, candidate());
                }
                if is_image_entry(entry) {
                    list.push(entry.path.clone());
                    proof {
                        assert(texts(list@) =~= texts(before).push(entry.path@));
                        assert(seen.filter(candidate()).push(entry@).map_values(
                            |e: WalkEntryView| e.path,
                        ) =~= candidates(seen).push(entry.path@));
                    }
                }
                i = i + 1;
            }
            proof {
                assert(all.take(entries.len() as int) =~= all);
            }
            if list.len() == 0 {
                Err(DiscoveryError::NoImages)
            } else {
                Ok(list)
            }
        },
    }
}

/// Whether `path` ends in the character `separator`.
pub open spec fn ends_with(path: Seq<char>, separator: char) -> bool {
    path.len() > 0 && path.last() == separator
}

/// The directory to create, parents included, before a run writes to
/// `output`; nothing where none is to be created.
///
/// An output that exists as a file needs its parent; one that exists
/// otherwise needs nothing. One that does not exist yet is taken for a
/// directory where it has no extension or ends in the separator, and is
/// created itself; else it is taken for a file, and its parent is created.
pub open spec fn directory_to_create(
    output: Seq<char>,
    exists: bool,
    is_file: bool,
    separator: char,
) -> Option<Seq<char>> {
    if exists {
        if is_file {
            path_parent_of(output)
        } else {
            None
        }
    } else if path_extension_of(output) is None || ends_with(output, separator) {
        Some(output)
    } else {
        path_parent_of(output)
    }
}

/// Decides which directory has to be created before the run writes to
/// `output`, from what the file system says of `output` (`exists`,
/// `is_file`) and the platform's path separator.
pub fn prepare_output_dir(output: &str, exists: bool, is_file: bool, separator: char) -> (dir:
    Option<String>)
    ensures
        text_of(dir) == directory_to_create(output@, exists, is_file, separator),
{
    if exists {
        if is_file {
            parent(output)
        } else {
            None
        }
    } else {
        let n = output.unicode_len();
        let ends = n > 0 && output.get_char(n - 1) == separator;
        if ends || extension(output).is_none() {
            Some(output.to_owned())
        } else {
            parent(output)
        }
    }
}

} // verus!
