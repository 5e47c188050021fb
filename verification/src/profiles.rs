//! Profiles: a named bundle of bootstrap commands plus Folder-to-Dot
//! selections, applied together. The library parses a profile file's text
//! and decides the applier's next move — bootstrap commands run in order,
//! fail-fast — while the surrounding binary runs the commands and applies
//! each selected pair through the scanner, the resolver and the activation
//! planner.

use vstd::prelude::*;

use crate::markers::str_list_field;
use crate::markers::str_map_field;
use crate::markers::toml_accepts;
use crate::markers::toml_str_list_field;
use crate::markers::toml_str_map_field;
use crate::markers::toml_text_accepted;
use crate::scan::ScanError;

verus! {

/// A named profile: optional ordered bootstrap commands, and an optional
/// mapping from Folder name to Dot name, held as pairs.
#[derive(Debug, PartialEq, Eq)]
pub struct Profile {
    pub name: String,
    pub start: Option<Vec<String>>,
    pub dots: Option<Vec<(String, String)>>,
}

pub ghost struct ProfileView {
    pub name: Seq<char>,
    pub start: Option<Seq<Seq<char>>>,
    pub dots: Option<Seq<(Seq<char>, Seq<char>)>>,
}

impl View for Profile {
    type V = ProfileView;

    open spec fn view(&self) -> ProfileView {
        ProfileView {
            name: self.name@,
            start: self.start.deep_view(),
            dots: self.dots.deep_view(),
        }
    }
}

impl DeepView for Profile {
    type V = ProfileView;

    open spec fn deep_view(&self) -> ProfileView {
        self@
    }
}

/// The bootstrap commands a profile runs, in order; none when the key is
/// absent.
pub open spec fn bootstrap_commands(p: ProfileView) -> Seq<Seq<char>> {
    match p.start {
        Some(cmds) => cmds,
        None => Seq::empty(),
    }
}

/// The (Folder name, Dot name) pairs a profile selects; none when the key is
/// absent. Each pair is applied independently, so their order carries no
/// meaning.
pub open spec fn profile_pairs(p: ProfileView) -> Seq<(Seq<char>, Seq<char>)> {
    match p.dots {
        Some(pairs) => pairs,
        None => Seq::empty(),
    }
}

/// Build one Profile from its file name (without extension) and its file's
/// text.
///
/// Fails with `MarkerUnparsable` exactly when the text is not a TOML table.
pub fn process_profile(name: String, text: &str) -> (r: Result<Profile, ScanError>)
    ensures
        match r {
            Ok(p) => {
                &&& toml_accepts(text@)
                &&& p@.name == name@
                &&& p@.start == str_list_field(text@, "start"@)
                &&& p@.dots == str_map_field(text@, "dots"@)
            },
            Err(e) => {
                &&& !toml_accepts(text@)
                &&& e matches ScanError::MarkerUnparsable { name: n } && n@ == name@
            },
        },
{
    if !toml_text_accepted(text) {
        return Err(ScanError::MarkerUnparsable { name });
    }
    let start = toml_str_list_field(text, "start");
    let dots = toml_str_map_field(text, "dots");
    Ok(Profile { name, start, dots })
}

/// The applier's next move while running a profile's bootstrap commands.
#[derive(Debug, PartialEq, Eq)]
pub enum ApplierStep {
    /// Run this bootstrap command synchronously, then ask again.
    RunBootstrap(String),
    /// The previous bootstrap command failed: stop, run nothing further,
    /// surface the failure.
    Abort,
    /// All bootstrap commands are done: apply the selected pairs.
    ApplyPairs,
}

/// Decide the applier's next move: with `next_command` bootstrap commands
/// already run and the outcome of the last one, either abort on a failure
/// (commands after a failure are never run), run the next command, or move
/// on to the selected pairs.
pub fn applier_next(profile: &Profile, next_command: usize, previous_failed: bool) -> (s:
    ApplierStep)
    ensures
        previous_failed ==> s is Abort,
        !previous_failed && next_command < bootstrap_commands(profile@).len() ==> (s matches
        ApplierStep::RunBootstrap(cmd) && cmd@ == bootstrap_commands(profile@)[
            next_command as int]),
        !previous_failed && next_command >= bootstrap_commands(profile@).len() ==> s is ApplyPairs,
{
    if previous_failed {
        return ApplierStep::Abort;
    }
    match &profile.start {
        Some(cmds) => {
            if next_command < cmds.len() {
                proof {
                    assert(bootstrap_commands(profile@)[next_command as int] == cmds@[
                        next_command as int]@);
                }
                ApplierStep::RunBootstrap(cmds[next_command].clone())
            } else {
                ApplierStep::ApplyPairs
            }
        },
        None => ApplierStep::ApplyPairs,
    }
}

} // verus!
