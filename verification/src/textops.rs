//! Text operations of the hub: the home-directory substitution applied to
//! marker-file text before parsing, and the parsing of a `folder/dot`
//! location token.

use vstd::prelude::*;
use vstd::string::StrSliceExecFns;
use vstd::string::StringExecFns;

verus! {

/// The result of substituting the home directory for every literal `~` of a
/// text — a plain textual substitution, not path-aware.
pub open spec fn replace_tilde(text: Seq<char>, home: Seq<char>) -> Seq<char>
    decreases text.len(),
{
    if text.len() == 0 {
        Seq::empty()
    } else {
        replace_tilde(text.drop_last(), home) + (if text.last() == '~' {
            home
        } else {
            seq![text.last()]
        })
    }
}

/// Substitute the user's home directory for every literal `~` occurrence in
/// a text, in order.
pub fn substitute_home(text: &str, home: &str) -> (r: String)
    ensures
        r@ == replace_tilde(text@, home@),
{
    let mut out = String::new();
    let len = text.unicode_len();
    let mut i: usize = 0;
    while i < len
        invariant
            i <= len,
            len == text@.len(),
            out@ == replace_tilde(text@.take(i as int), home@),
        decreases len - i,
    {
        let c = text.get_char(i);
        if c == '~' {
            out.append(home);
        } else {
            let piece = text.substring_char(i, i + 1);
            out.append(piece);
        }
        proof {
            assert(text@.take(i + 1).drop_last() =~= text@.take(i as int));
            assert(text@.take(i + 1).last() == text@[i as int]);
            if text@[i as int] != '~' {
                assert(text@.subrange(i as int, i + 1) =~= seq![text@[i as int]]);
            }
        }
        i = i + 1;
    }
    proof {
        assert(text@.take(len as int) =~= text@);
    }
    out
}

/// The path of a Dot's hub-stored copy: the hub root, the DotFolder's name
/// and the Dot's name, joined by `/`.
pub fn dot_source_path(hub: &str, folder_name: &String, dot_name: &String) -> (r: String)
    ensures
        r@ == hub@ + "/"@ + folder_name@ + "/"@ + dot_name@,
{
    let mut out = hub.to_owned();
    out.append("/");
    out.append(folder_name.as_str());
    out.append("/");
    out.append(dot_name.as_str());
    out
}

/// A `folder/dot` location token taken apart: the folder name and, when the
/// token holds a `/`, the dot name after it.
pub ghost enum LocationView {
    /// The token names a folder only.
    Folder { folder: Seq<char> },
    /// The token names a folder and a dot inside it.
    FolderDot { folder: Seq<char>, dot: Seq<char> },
    /// The token ends in `/`: an empty segment after the slash is invalid.
    Invalid,
}

/// What parsing a location token yields: split at the first `/` when there
/// is one; an empty segment after that slash is invalid.
pub open spec fn location_split(s: Seq<char>) -> LocationView {
    match s.index_of_first('/') {
        None => LocationView::Folder { folder: s },
        Some(i) => if i + 1 == s.len() {
            LocationView::Invalid
        } else {
            LocationView::FolderDot { folder: s.take(i), dot: s.skip(i + 1) }
        },
    }
}

/// A location token that names no dot after its slash.
#[derive(Debug, Clone, Copy, PartialEq, Eq, Structural)]
pub enum LocationError {
    EmptyDotName,
}

/// Parse a `folder/dot` location token by splitting on the first `/`: no
/// slash names the folder alone; an empty segment after the slash is
/// invalid.
pub fn parse_location(location: &str) -> (r: Result<(String, Option<String>), LocationError>)
    ensures
        match r {
            Ok((folder, dot)) => match dot {
                None => location_split(location@) == (LocationView::Folder { folder: folder@ }),
                Some(d) => location_split(location@) == (LocationView::FolderDot {
                    folder: folder@,
                    dot: d@,
                }),
            },
            Err(e) => location_split(location@) is Invalid && e == LocationError::EmptyDotName,
        },
{
    let len = location.unicode_len();
    let mut i: usize = 0;
    while i < len
        invariant
            i <= len,
            len == location@.len(),
            forall|j: int| 0 <= j < i ==> location@[j] != '/',
        decreases len - i,
    {
        let c = location.get_char(i);
        if c == '/' {
            proof {
                location@.index_of_first_ensures('/');
                assert(location@[i as int] == '/');
                assert(location@.index_of_first('/') == Some(i as int));
            }
            if i + 1 == len {
                return Err(LocationError::EmptyDotName);
            }
            let folder = location.substring_char(0, i).to_owned();
            let dot = location.substring_char(i + 1, len).to_owned();
            proof {
                assert(location@.subrange(0, i as int) =~= location@.take(i as int));
                assert(location@.subrange(i + 1, len as int) =~= location@.skip(i + 1));
            }
            return Ok((folder, Some(dot)));
        }
        i = i + 1;
    }
    proof {
        location@.index_of_first_ensures('/');
        if location@.contains('/') {
            let witness = choose|j: int|
                0 <= j < location@.len() && location@[j] == '/';
            assert(location@[witness] != '/');
        }
        assert(location@.index_of_first('/') is None);
    }
    Ok((location.to_owned(), None))
}

} // verus!
