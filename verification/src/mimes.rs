//! The media-type table: an immutable mapping from a lower-case file-name
//! extension (no leading dot) to a `(type, subtype)` pair, together with the
//! extension lookup on a path.

use vstd::prelude::*;
use vstd::string::StrSliceExecFns;

verus! {

/// A `(type, subtype)` pair, such as `text/plain`.
#[derive(Clone, Debug, PartialEq, Eq)]
pub struct MediaType {
    pub type_: String,
    pub subtype: String,
}

impl View for MediaType {
    type V = (Seq<char>, Seq<char>);

    open spec fn view(&self) -> (Seq<char>, Seq<char>) {
        (self.type_@, self.subtype@)
    }
}

impl MediaType {
    /// Pair a top-level type with a subtype.
    pub fn new(type_: &str, subtype: &str) -> (m: MediaType)
        ensures
            m@ == (type_@, subtype@),
    {
        MediaType { type_: type_.to_owned(), subtype: subtype.to_owned() }
    }
}

/// The ASCII lower-case image of one character; characters outside `A..Z`
/// are left as they are.
pub open spec fn lower_char(c: char) -> char {
    if 65 <= c as u32 && c as u32 <= 90 {
        ((c as u8) + 32) as char
    } else {
        c
    }
}

/// The ASCII lower-case image of a character sequence.
pub open spec fn lower_seq(s: Seq<char>) -> Seq<char> {
    s.map_values(|c: char| lower_char(c))
}

fn to_lower_char(c: char) -> (r: char)
    ensures
        r == lower_char(c),
{
    let u = c as u32;
    if 65 <= u && u <= 90 {
        ((c as u8) + 32) as char
    } else {
        c
    }
}

/// Whether `s`, lowered, spells exactly the (already lower-case) pattern.
fn eq_lower(s: &str, pat: &str) -> (r: bool)
    ensures
        r == (lower_seq(s@) == pat@),
{
    let n = s.unicode_len();
    let m = pat.unicode_len();
    if n != m {
        return false;
    }
    let mut i: usize = 0;
    while i < n
        invariant
            0 <= i <= n,
            n == s@.len(),
            n == pat@.len(),
            forall|j: int| 0 <= j < i ==> lower_seq(s@)[j] == pat@[j],
        decreases n - i,
    {
        let c = to_lower_char(s.get_char(i));
        let d = pat.get_char(i);
        if c != d {
            assert(lower_seq(s@)[i as int] != pat@[i as int]);
            return false;
        }
        i += 1;
    }
    proof {
        assert(lower_seq(s@) =~= pat@);
    }
    true
}

/// The registered table, over the lower-case extension.
pub open spec fn spec_resolve(e: Seq<char>) -> Option<(Seq<char>, Seq<char>)> {
    if e == "txt"@ {
        Some(("text"@, "plain"@))
    } else if e == "html"@ {
        Some(("text"@, "html"@))
    } else if e == "htm"@ {
        Some(("text"@, "html"@))
    } else if e == "css"@ {
        Some(("text"@, "css"@))
    } else if e == "csv"@ {
        Some(("text"@, "csv"@))
    } else if e == "md"@ {
        Some(("text"@, "markdown"@))
    } else if e == "js"@ {
        Some(("application"@, "javascript"@))
    } else if e == "json"@ {
        Some(("application"@, "json"@))
    } else if e == "xml"@ {
        Some(("application"@, "xml"@))
    } else if e == "pdf"@ {
        Some(("application"@, "pdf"@))
    } else if e == "zip"@ {
        Some(("application"@, "zip"@))
    } else if e == "gz"@ {
        Some(("application"@, "gzip"@))
    } else if e == "tar"@ {
        Some(("application"@, "x-tar"@))
    } else if e == "wasm"@ {
        Some(("application"@, "wasm"@))
    } else if e == "gif"@ {
        Some(("image"@, "gif"@))
    } else if e == "jpg"@ {
        Some(("image"@, "jpeg"@))
    } else if e == "jpeg"@ {
        Some(("image"@, "jpeg"@))
    } else if e == "png"@ {
        Some(("image"@, "png"@))
    } else if e == "svg"@ {
        Some(("image"@, "svg+xml"@))
    } else if e == "ico"@ {
        Some(("image"@, "x-icon"@))
    } else if e == "mp3"@ {
        Some(("audio"@, "mpeg"@))
    } else if e == "mp4"@ {
        Some(("video"@, "mp4"@))
    } else {
        None
    }
}

/// Look an extension up in the media-type table. The extension's case is
/// normalized first, since the table is built from lower-case literals;
/// an unregistered extension resolves to nothing.
pub fn resolve(ext: &str) -> (r: Option<MediaType>)
    ensures
        r matches Some(m) ==> spec_resolve(lower_seq(ext@)) == Some(m@),
        r is Some <==> spec_resolve(lower_seq(ext@)) is Some,
{
    if eq_lower(ext, "txt") {
        Some(MediaType::new("text", "plain"))
    } else if eq_lower(ext, "html") {
        Some(MediaType::new("text", "html"))
    } else if eq_lower(ext, "htm") {
        Some(MediaType::new("text", "html"))
    } else if eq_lower(ext, "css") {
        Some(MediaType::new("text", "css"))
    } else if eq_lower(ext, "csv") {
        Some(MediaType::new("text", "csv"))
    } else if eq_lower(ext, "md") {
        Some(MediaType::new("text", "markdown"))
    } else if eq_lower(ext, "js") {
        Some(MediaType::new("application", "javascript"))
    } else if eq_lower(ext, "json") {
        Some(MediaType::new("application", "json"))
    } else if eq_lower(ext, "xml") {
        Some(MediaType::new("application", "xml"))
    } else if eq_lower(ext, "pdf") {
        Some(MediaType::new("application", "pdf"))
    } else if eq_lower(ext, "zip") {
        Some(MediaType::new("application", "zip"))
    } else if eq_lower(ext, "gz") {
        Some(MediaType::new("application", "gzip"))
    } else if eq_lower(ext, "tar") {
        Some(MediaType::new("application", "x-tar"))
    } else if eq_lower(ext, "wasm") {
        Some(MediaType::new("application", "wasm"))
    } else if eq_lower(ext, "gif") {
        Some(MediaType::new("image", "gif"))
    } else if eq_lower(ext, "jpg") {
        Some(MediaType::new("image", "jpeg"))
    } else if eq_lower(ext, "jpeg") {
        Some(MediaType::new("image", "jpeg"))
    } else if eq_lower(ext, "png") {
        Some(MediaType::new("image", "png"))
    } else if eq_lower(ext, "svg") {
        Some(MediaType::new("image", "svg+xml"))
    } else if eq_lower(ext, "ico") {
        Some(MediaType::new("image", "x-icon"))
    } else if eq_lower(ext, "mp3") {
        Some(MediaType::new("audio", "mpeg"))
    } else if eq_lower(ext, "mp4") {
        Some(MediaType::new("video", "mp4"))
    } else {
        None
    }
}

/// Resolution is stable across repeated calls: what an extension resolves to
/// is a function of the extension alone, with no hidden state, so any two
/// results that [`resolve`]'s contract admits for one extension are equal.
pub proof fn lemma_resolve_stable(
    e: Seq<char>,
    r1: Option<(Seq<char>, Seq<char>)>,
    r2: Option<(Seq<char>, Seq<char>)>,
)
    requires
        r1 == spec_resolve(lower_seq(e)),
        r2 == spec_resolve(lower_seq(e)),
    ensures
        r1 == r2,
{
}

/// Scanning a path backward from position `i`: the position right after the
/// dot that starts the extension, if the characters looked at so far still
/// allow one.
pub open spec fn spec_dot_end(p: Seq<char>, i: int) -> Option<int>
    decreases i + 1,
{
    if i < 0 {
        None
    } else if p[i] == '/' {
        None
    } else if p[i] == '.' {
        if i == 0 || p[i - 1] == '/' {
            None
        } else {
            Some(i + 1)
        }
    } else {
        spec_dot_end(p, i - 1)
    }
}

/// The extension of a path: what follows the last dot of the last path
/// segment, provided that dot neither starts the segment (a hidden file has
/// no extension) nor is missing altogether.
pub open spec fn spec_extension_of(p: Seq<char>) -> Option<Seq<char>> {
    match spec_dot_end(p, p.len() - 1) {
        Some(j) => Some(p.subrange(j, p.len() as int)),
        None => None,
    }
}

/// The media type a path's extension resolves to, if any.
pub open spec fn spec_media_for_path(p: Seq<char>) -> Option<(Seq<char>, Seq<char>)> {
    match spec_extension_of(p) {
        Some(e) => spec_resolve(lower_seq(e)),
        None => None,
    }
}

/// The extension of `path`, as [`spec_extension_of`] defines it.
pub fn extension_of(path: &str) -> (r: Option<&str>)
    ensures
        r matches Some(e) ==> spec_extension_of(path@) == Some(e@),
        r is Some <==> spec_extension_of(path@) is Some,
{
    let n = path.unicode_len();
    let mut i: usize = n;
    while i > 0
        invariant
            0 <= i <= n,
            n == path@.len(),
            spec_dot_end(path@, n - 1) == spec_dot_end(path@, i - 1),
        decreases i,
    {
        i -= 1;
        let c = path.get_char(i);
        if c == '/' {
            return None;
        }
        if c == '.' {
            if i == 0 {
                return None;
            }
            if path.get_char(i - 1) == '/' {
                return None;
            }
            return Some(path.substring_char(i + 1, n));
        }
    }
    None
}

} // verus!
