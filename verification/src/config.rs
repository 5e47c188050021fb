//! The data model of the hub — Folders, Dots and their Configurations — and
//! the resolver that merges a Folder's Configuration with a Dot's into the
//! effective Configuration that activation and lifecycle operations consume.

use vstd::prelude::*;

verus! {

/// The behavioural contract of one Dot or DotFolder, parsed from a marker
/// file. `destination` is required (non-empty) at the Folder level; at the
/// Dot level an empty `destination` means "not set, inherit the Folder's".
#[derive(Debug, PartialEq, Eq)]
pub struct DotConfig {
    pub start: Option<String>,
    pub kill: Option<String>,
    pub reload: Option<String>,
    pub destination: String,
    pub reload_on_set: Option<bool>,
}

/// Mathematical image of a `DotConfig`: each command as an optional
/// character sequence, the destination as a character sequence.
pub ghost struct ConfigView {
    pub start: Option<Seq<char>>,
    pub kill: Option<Seq<char>>,
    pub reload: Option<Seq<char>>,
    pub destination: Seq<char>,
    pub reload_on_set: Option<bool>,
}

impl View for DotConfig {
    type V = ConfigView;

    open spec fn view(&self) -> ConfigView {
        ConfigView {
            start: self.start.deep_view(),
            kill: self.kill.deep_view(),
            reload: self.reload.deep_view(),
            destination: self.destination@,
            reload_on_set: self.reload_on_set,
        }
    }
}

impl Clone for DotConfig {
    fn clone(&self) -> (r: Self)
        ensures
            r@ == self@,
    {
        DotConfig {
            start: clone_command(&self.start),
            kill: clone_command(&self.kill),
            reload: clone_command(&self.reload),
            destination: self.destination.clone(),
            reload_on_set: self.reload_on_set,
        }
    }
}

/// One concrete variant inside a DotFolder.
#[derive(Debug, PartialEq, Eq)]
pub struct Dot {
    pub name: String,
    pub config: Option<DotConfig>,
}

pub ghost struct DotView {
    pub name: Seq<char>,
    pub config: Option<ConfigView>,
}

impl View for Dot {
    type V = DotView;

    open spec fn view(&self) -> DotView {
        DotView { name: self.name@, config: config_view(self.config) }
    }
}

/// One named collection of Dots sharing default behaviour.
#[derive(Debug, PartialEq, Eq)]
pub struct DotFolder {
    pub name: String,
    pub dots: Vec<Dot>,
    pub config: Option<DotConfig>,
}

pub ghost struct DotFolderView {
    pub name: Seq<char>,
    pub dots: Seq<DotView>,
    pub config: Option<ConfigView>,
}

impl View for DotFolder {
    type V = DotFolderView;

    open spec fn view(&self) -> DotFolderView {
        DotFolderView {
            name: self.name@,
            dots: self.dots.deep_view(),
            config: config_view(self.config),
        }
    }
}

pub open spec fn config_view(c: Option<DotConfig>) -> Option<ConfigView> {
    match c {
        Some(c) => Some(c@),
        None => None,
    }
}

impl DeepView for Dot {
    type V = DotView;

    open spec fn deep_view(&self) -> DotView {
        self@
    }
}

impl DeepView for DotFolder {
    type V = DotFolderView;

    open spec fn deep_view(&self) -> DotFolderView {
        self@
    }
}

/// A DotFolder is well formed when its Configuration, if it has one, carries
/// a non-empty destination; the scanner refuses folder markers without one.
pub open spec fn folder_wf(f: DotFolderView) -> bool {
    f.config matches Some(c) ==> c.destination.len() > 0
}

/// Resolution failures.
#[derive(Debug, Clone, Copy, PartialEq, Eq, Structural)]
pub enum ResolveError {
    /// The DotFolder owns no Configuration, so no destination is known.
    MissingDestination,
}

/// Field-by-field merge of a Folder Configuration with a Dot Configuration:
/// the Dot's value wins where present; an empty Dot `destination` counts as
/// absent and inherits the Folder's.
pub open spec fn merged_config(fc: ConfigView, ec: ConfigView) -> ConfigView {
    ConfigView {
        start: if ec.start is Some {
            ec.start
        } else {
            fc.start
        },
        kill: if ec.kill is Some {
            ec.kill
        } else {
            fc.kill
        },
        reload: if ec.reload is Some {
            ec.reload
        } else {
            fc.reload
        },
        destination: if ec.destination.len() == 0 {
            fc.destination
        } else {
            ec.destination
        },
        reload_on_set: if ec.reload_on_set is Some {
            ec.reload_on_set
        } else {
            fc.reload_on_set
        },
    }
}

/// The effective Configuration for a (Folder, optional Dot) pair: `None`
/// when the Folder owns no Configuration; the Folder's own Configuration
/// when no Dot is given or the Dot carries none; the merge otherwise.
pub open spec fn resolved_config(folder: DotFolderView, dot: Option<DotView>) -> Option<
    ConfigView,
> {
    match folder.config {
        None => None,
        Some(fc) => match dot {
            Some(d) => match d.config {
                Some(ec) => Some(merged_config(fc, ec)),
                None => Some(fc),
            },
            None => Some(fc),
        },
    }
}

pub open spec fn opt_dot_view(dot: Option<&Dot>) -> Option<DotView> {
    match dot {
        Some(d) => Some(d@),
        None => None,
    }
}

fn clone_command(c: &Option<String>) -> (r: Option<String>)
    ensures
        r.deep_view() == c.deep_view(),
{
    match c {
        Some(s) => Some(s.clone()),
        None => None,
    }
}

/// Pick the Dot's command where it has one, else fall back to the Folder's.
fn pick_command(dot_value: &Option<String>, folder_value: &Option<String>) -> (r: Option<String>)
    ensures
        r.deep_view() == if dot_value.deep_view() is Some {
            dot_value.deep_view()
        } else {
            folder_value.deep_view()
        },
{
    match dot_value {
        Some(s) => Some(s.clone()),
        None => clone_command(folder_value),
    }
}

/// Resolve the effective Configuration for a DotFolder and an optional Dot.
///
/// The Folder must own a Configuration, else resolution fails with
/// `MissingDestination`. With no Dot, or a Dot without a Configuration, the
/// Folder's Configuration is returned unchanged; otherwise each field takes
/// the Dot's value if present, else the Folder's, with an empty Dot
/// `destination` treated as absent.
pub fn get_active_config(folder: &DotFolder, dot: Option<&Dot>) -> (r: Result<
    DotConfig,
    ResolveError,
>)
    ensures
        match r {
            Ok(c) => resolved_config(folder@, opt_dot_view(dot)) == Some(c@),
            Err(e) => resolved_config(folder@, opt_dot_view(dot)) is None && e
                == ResolveError::MissingDestination,
        },
{
    let df_config = match &folder.config {
        Some(c) => c,
        None => {
            return Err(ResolveError::MissingDestination);
        },
    };
    if let Some(d) = dot {
        if let Some(c) = &d.config {
            let merged = DotConfig {
                start: pick_command(&c.start, &df_config.start),
                kill: pick_command(&c.kill, &df_config.kill),
                reload: pick_command(&c.reload, &df_config.reload),
                destination: if c.destination.as_str().is_empty() {
                    df_config.destination.clone()
                } else {
                    c.destination.clone()
                },
                reload_on_set: if c.reload_on_set.is_some() {
                    c.reload_on_set
                } else {
                    df_config.reload_on_set
                },
            };
            return Ok(merged);
        }
    }
    Ok(df_config.clone())
}

/// Law: resolving without a Dot and resolving with a Dot that carries no
/// Configuration give the same effective Configuration — the Folder's own.
pub proof fn lemma_resolve_ignores_configless_dot(folder: DotFolderView, dot: DotView)
    requires
        dot.config is None,
    ensures
        resolved_config(folder, Some(dot)) == resolved_config(folder, None),
{
}

/// Law: resolution preserves a well-formed Folder's non-empty destination —
/// the effective Configuration always carries a usable destination.
pub proof fn lemma_resolved_destination_nonempty(folder: DotFolderView, dot: Option<DotView>)
    requires
        folder_wf(folder),
        resolved_config(folder, dot) is Some,
    ensures
        resolved_config(folder, dot).unwrap().destination.len() > 0,
{
}

} // verus!
