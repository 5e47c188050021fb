//! The repository scanner: builds Dots and DotFolders from what the
//! surrounding binary finds on disk. The binary walks the hub directory and
//! hands in names and marker-file texts; the scanner substitutes the home
//! directory into each text, parses it, and assembles the tree, enforcing
//! that a Folder's marker fills a non-empty destination.

use vstd::prelude::*;
use vstd::string::StringExecFns;

use crate::config::ConfigView;
use crate::config::Dot;
use crate::config::DotConfig;
use crate::config::DotFolder;
use crate::config::DotView;
use crate::config::folder_wf;
use crate::markers::bool_field;
use crate::markers::str_field;
use crate::markers::toml_accepts;
use crate::markers::toml_bool_field;
use crate::markers::toml_str_field;
use crate::markers::toml_text_accepted;
use crate::textops::replace_tilde;
use crate::textops::substitute_home;

verus! {

/// Scanning failures: a marker file that does not parse, or a Folder marker
/// without the required destination. Each carries the Folder or Dot name it
/// was found under.
#[derive(Debug, PartialEq, Eq)]
pub enum ScanError {
    MarkerUnparsable { name: String },
    FolderDestinationMissing { name: String },
}

/// The conventional marker-file name.
pub fn is_marker_name(name: &String) -> (r: bool)
    ensures
        r == (name@ == ".dothub"@),
{
    let marker: String = ".dothub".to_owned();
    *name == marker
}

/// The Configuration a parsed marker text denotes: the command fields and
/// the tri-state `reload_on_set` as the marker gives them, the destination
/// as given or empty when absent.
pub open spec fn marker_config(text: Seq<char>) -> ConfigView {
    ConfigView {
        start: str_field(text, "start"@),
        kill: str_field(text, "kill"@),
        reload: str_field(text, "reload"@),
        destination: match str_field(text, "destination"@) {
            Some(d) => d,
            None => Seq::empty(),
        },
        reload_on_set: bool_field(text, "reload_on_set"@),
    }
}

/// What scanning one Dot yields: its name, and its marker's Configuration
/// after home substitution — `None` when the marker text does not parse.
pub open spec fn scanned_dot(name: Seq<char>, text: Option<Seq<char>>, home: Seq<char>) -> Option<
    DotView,
> {
    match text {
        None => Some(DotView { name, config: None }),
        Some(t) => if toml_accepts(replace_tilde(t, home)) {
            Some(DotView { name, config: Some(marker_config(replace_tilde(t, home))) })
        } else {
            None
        },
    }
}

/// Whether a Folder's marker text parses (no marker is fine).
pub open spec fn folder_marker_parses(text: Option<Seq<char>>, home: Seq<char>) -> bool {
    match text {
        None => true,
        Some(t) => toml_accepts(replace_tilde(t, home)),
    }
}

/// Whether a Folder's marker is acceptable: it parses and fills a non-empty
/// destination (no marker is fine).
pub open spec fn folder_marker_valid(text: Option<Seq<char>>, home: Seq<char>) -> bool {
    match text {
        None => true,
        Some(t) => toml_accepts(replace_tilde(t, home)) && marker_config(
            replace_tilde(t, home),
        ).destination.len() > 0,
    }
}

/// The Configuration a Folder's marker denotes, when it has one.
pub open spec fn scanned_folder_config(text: Option<Seq<char>>, home: Seq<char>) -> Option<
    ConfigView,
> {
    match text {
        None => None,
        Some(t) => Some(marker_config(replace_tilde(t, home))),
    }
}

/// Whether every named Dot input scans without error.
pub open spec fn dots_scan_ok(
    dots: Seq<(Seq<char>, Option<Seq<char>>)>,
    home: Seq<char>,
) -> bool {
    forall|i: int| 0 <= i < dots.len() ==> #[trigger] scanned_dot(dots[i].0, dots[i].1, home)
        is Some
}

/// The Dots a list of inputs scans to, in input order.
pub open spec fn scanned_dots(dots: Seq<(Seq<char>, Option<Seq<char>>)>, home: Seq<char>) -> Seq<
    DotView,
> {
    dots.map_values(|p: (Seq<char>, Option<Seq<char>>)| scanned_dot(p.0, p.1, home).unwrap())
}

/// Build one Dot from its directory name and its marker file's text, if it
/// had one. The home directory is substituted for every `~` of the text
/// before the parse.
///
/// Fails with `MarkerUnparsable` exactly when the substituted text is not a
/// TOML table.
pub fn process_dot(name: String, marker_text: Option<&str>, home: &str) -> (r: Result<
    Dot,
    ScanError,
>)
    ensures
        match r {
            Ok(d) => scanned_dot(name@, marker_text.deep_view(), home@) == Some(d@),
            Err(e) => {
                &&& scanned_dot(name@, marker_text.deep_view(), home@) is None
                &&& e matches ScanError::MarkerUnparsable { name: n } && n@ == name@
            },
        },
{
    match marker_text {
        None => Ok(Dot { name, config: None }),
        Some(text) => {
            let substituted = substitute_home(text, home);
            if !toml_text_accepted(substituted.as_str()) {
                return Err(ScanError::MarkerUnparsable { name });
            }
            let config = parse_marker(substituted.as_str());
            Ok(Dot { name, config: Some(config) })
        },
    }
}

/// Build one DotFolder from its directory name, its own marker file's text,
/// and its Dot subdirectories' names and marker texts, in directory order.
///
/// Fails with `MarkerUnparsable` when the Folder's marker (first) or some
/// Dot's marker (in order, first failing one) does not parse, and with
/// `FolderDestinationMissing` when the Folder's marker parses but does not
/// fill a non-empty destination.
#[verifier::loop_isolation(false)]
pub fn process_dotfolder(
    name: String,
    marker_text: Option<&str>,
    dots: Vec<(String, Option<String>)>,
    home: &str,
) -> (r: Result<DotFolder, ScanError>)
    ensures
        match r {
            Ok(f) => {
                &&& folder_marker_valid(marker_text.deep_view(), home@)
                &&& dots_scan_ok(dots.deep_view(), home@)
                &&& f@.name == name@
                &&& f@.config == scanned_folder_config(marker_text.deep_view(), home@)
                &&& f@.dots == scanned_dots(dots.deep_view(), home@)
                &&& folder_wf(f@)
            },
            Err(e) => {
                let mt = marker_text.deep_view();
                if !folder_marker_parses(mt, home@) {
                    e matches ScanError::MarkerUnparsable { name: n } && n@ == name@
                } else if !folder_marker_valid(mt, home@) {
                    e matches ScanError::FolderDestinationMissing { name: n } && n@ == name@
                } else {
                    exists|i: int|
                        {
                            &&& 0 <= i < dots.deep_view().len()
                            &&& #[trigger] scanned_dot(
                                dots.deep_view()[i].0,
                                dots.deep_view()[i].1,
                                home@,
                            ) is None
                            &&& (forall|j: int|
                                0 <= j < i ==> #[trigger] scanned_dot(
                                    dots.deep_view()[j].0,
                                    dots.deep_view()[j].1,
                                    home@,
                                ) is Some)
                            &&& e matches ScanError::MarkerUnparsable { name: n } && n@
                                == dots.deep_view()[i].0
                        }
                }
            },
        },
{
    let config: Option<DotConfig> = match marker_text {
        None => None,
        Some(text) => {
            let substituted = substitute_home(text, home);
            if !toml_text_accepted(substituted.as_str()) {
                return Err(ScanError::MarkerUnparsable { name });
            }
            let parsed = parse_marker(substituted.as_str());
            if parsed.destination.as_str().is_empty() {
                return Err(ScanError::FolderDestinationMissing { name });
            }
            Some(parsed)
        },
    };
    let mut scanned: Vec<Dot> = Vec::new();
    let mut i: usize = 0;
    while i < dots.len()
        invariant
            i <= dots@.len(),
            scanned.deep_view() =~= scanned_dots(dots.deep_view().take(i as int), home@),
            forall|j: int|
                0 <= j < i ==> #[trigger] scanned_dot(
                    dots.deep_view()[j].0,
                    dots.deep_view()[j].1,
                    home@,
                ) is Some,
        decreases dots@.len() - i,
    {
        let ghost dv = dots.deep_view();
        let entry = &dots[i];
        let text_ref: Option<&str> = match &entry.1 {
            Some(t) => Some(t.as_str()),
            None => None,
        };
        proof {
            assert(dv[i as int] == dots@[i as int].deep_view());
            assert(dv[i as int].0 == entry.0@);
            assert(dv[i as int].1 == text_ref.deep_view());
        }
        match process_dot(entry.0.clone(), text_ref, home) {
            Ok(d) => {
                let ghost before = scanned.deep_view();
                scanned.push(d);
                proof {
                    assert(scanned.deep_view() =~= before.push(d@));
                    assert(scanned_dot(dv[i as int].0, dv[i as int].1, home@) == Some(d@));
                    assert(scanned.deep_view() =~= scanned_dots(dv.take(i + 1), home@));
                }
            },
            Err(e) => {
                proof {
                    assert(scanned_dot(dv[i as int].0, dv[i as int].1, home@) is None);
                }
                return Err(e);
            },
        }
        i = i + 1;
    }
    proof {
        assert(dots.deep_view().take(dots.deep_view().len() as int) =~= dots.deep_view());
    }
    Ok(DotFolder { name, dots: scanned, config })
}

/// Read the five Configuration fields out of an accepted marker text.
fn parse_marker(text: &str) -> (c: DotConfig)
    ensures
        c@ == marker_config(text@),
{
    let destination = match toml_str_field(text, "destination") {
        Some(d) => d,
        None => String::new(),
    };
    DotConfig {
        start: toml_str_field(text, "start"),
        kill: toml_str_field(text, "kill"),
        reload: toml_str_field(text, "reload"),
        destination,
        reload_on_set: toml_bool_field(text, "reload_on_set"),
    }
}

} // verus!
