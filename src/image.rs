use vstd::prelude::*;

verus! {

/// The file formats an image can be written in.
#[derive(Clone, Copy, Debug, PartialEq, Eq, Structural)]
pub enum ImageFormat {
    Pfm,
    Exr,
    Ppm,
}

/// Whether `s` ends with `suffix`.
pub open spec fn has_suffix(s: Seq<char>, suffix: Seq<char>) -> bool {
    s.len() >= suffix.len() && s.subrange(s.len() - suffix.len(), s.len() as int) == suffix
}

/// The format that a file path names: `.pfm`, then `.exr`, then a path
/// ending in `ppm`.
pub open spec fn format_of(path: Seq<char>) -> Option<ImageFormat> {
    if has_suffix(path, ".pfm"@) {
        Some(ImageFormat::Pfm)
    } else if has_suffix(path, ".exr"@) {
        Some(ImageFormat::Exr)
    } else if has_suffix(path, "ppm"@) {
        Some(ImageFormat::Ppm)
    } else {
        None
    }
}

/// Whether `s` ends with `suffix`.
pub fn ends_with(s: &str, suffix: &str) -> (r: bool)
    ensures
        r == has_suffix(s@, suffix@),
{
    let n = s.unicode_len();
    let m = suffix.unicode_len();
    if n < m {
        return false;
    }
    let offset = n - m;
    let mut i: usize = 0;
    while i < m
        invariant
            i <= m,
            offset + m == n,
            n == s@.len(),
            m == suffix@.len(),
            forall|k: int| 0 <= k < i ==> s@[offset + k] == #[trigger] suffix@[k],
        decreases m - i,
    {
        if s.get_char(offset + i) != suffix.get_char(i) {
            assert(s@.subrange(offset as int, n as int)[i as int] != suffix@[i as int]);
            return false;
        }
        i = i + 1;
    }
    assert(s@.subrange(offset as int, n as int) =~= suffix@);
    true
}

impl ImageFormat {
    /// The format to write `path` in, if its name gives one.
    pub fn from_path(path: &str) -> (r: Option<ImageFormat>)
        ensures
            r == format_of(path@),
    {
        if ends_with(path, ".pfm") {
            Some(ImageFormat::Pfm)
        } else if ends_with(path, ".exr") {
            Some(ImageFormat::Exr)
        } else if ends_with(path, "ppm") {
            Some(ImageFormat::Ppm)
        } else {
            None
        }
    }
}

/// A reconstruction filter that gives a sample's full weight to the one
/// pixel it falls in.
#[derive(Clone, Copy, Debug)]
pub struct BoxFilter {}

impl BoxFilter {
    pub fn new() -> (r: BoxFilter)
        ensures
            r == (BoxFilter {}),
    {
        BoxFilter {}
    }
}

} // verus!
