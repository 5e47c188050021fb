//! Lookup of Folders and Dots by name in the scanned tree, as the command
//! surface needs it: the first Folder of the hub with a given name, and the
//! first Dot of a Folder with a given name.

use vstd::prelude::*;

use crate::config::Dot;
use crate::config::DotFolder;
use crate::config::DotFolderView;
use crate::config::DotView;
use crate::profiles::Profile;
use crate::profiles::ProfileView;

verus! {

/// Lookup failures: no Folder, Dot or Profile of the requested name. Each
/// carries the name that was asked for.
#[derive(Debug, PartialEq, Eq)]
pub enum LookupError {
    FolderNotFound { name: String },
    DotNotFound { name: String },
    ProfileNotFound { name: String },
}

/// The names of a sequence of Folders, in order.
pub open spec fn folder_names(folders: Seq<DotFolderView>) -> Seq<Seq<char>> {
    folders.map_values(|f: DotFolderView| f.name)
}

/// The names of a sequence of Dots, in order.
pub open spec fn dot_names(dots: Seq<DotView>) -> Seq<Seq<char>> {
    dots.map_values(|d: DotView| d.name)
}

/// The names of a sequence of Profiles, in order.
pub open spec fn profile_names(profiles: Seq<ProfileView>) -> Seq<Seq<char>> {
    profiles.map_values(|p: ProfileView| p.name)
}

/// Find the first Profile with the given name.
///
/// Fails with `ProfileNotFound` exactly when no Profile bears the name.
pub fn find_profile<'a>(profiles: &'a Vec<Profile>, name: &String) -> (r: Result<
    &'a Profile,
    LookupError,
>)
    ensures
        match r {
            Ok(p) => {
                &&& profile_names(profiles.deep_view()).index_of_first(name@) matches Some(i)
                &&& p@ == profiles.deep_view()[profile_names(
                    profiles.deep_view(),
                ).index_of_first(name@).unwrap()]
            },
            Err(e) => {
                &&& profile_names(profiles.deep_view()).index_of_first(name@) is None
                &&& e matches LookupError::ProfileNotFound { name: n } && n@ == name@
            },
        },
{
    let ghost names = profile_names(profiles.deep_view());
    let mut i: usize = 0;
    while i < profiles.len()
        invariant
            i <= profiles@.len(),
            names == profile_names(profiles.deep_view()),
            names.len() == profiles@.len(),
            forall|j: int| 0 <= j < i ==> names[j] != name@,
        decreases profiles@.len() - i,
    {
        proof {
            assert(profiles.deep_view()[i as int] == profiles@[i as int].deep_view());
            assert(names[i as int] == profiles@[i as int].name@);
        }
        if profiles[i].name.eq(name) {
            proof {
                names.index_of_first_ensures(name@);
                assert(names[i as int] == name@);
                assert(names.index_of_first(name@) == Some(i as int));
            }
            return Ok(&profiles[i]);
        }
        i = i + 1;
    }
    proof {
        names.index_of_first_ensures(name@);
        if names.contains(name@) {
            let witness = choose|j: int| 0 <= j < names.len() && names[j] == name@;
            assert(names[witness] != name@);
        }
    }
    Err(LookupError::ProfileNotFound { name: name.clone() })
}

/// Find the first Folder with the given name.
///
/// Fails with `FolderNotFound` exactly when no Folder bears the name.
pub fn find_folder<'a>(folders: &'a Vec<DotFolder>, name: &String) -> (r: Result<
    &'a DotFolder,
    LookupError,
>)
    ensures
        match r {
            Ok(f) => {
                &&& folder_names(folders.deep_view()).index_of_first(name@) matches Some(i)
                &&& f@ == folders.deep_view()[folder_names(folders.deep_view()).index_of_first(
                    name@,
                ).unwrap()]
            },
            Err(e) => {
                &&& folder_names(folders.deep_view()).index_of_first(name@) is None
                &&& e matches LookupError::FolderNotFound { name: n } && n@ == name@
            },
        },
{
    let ghost names = folder_names(folders.deep_view());
    let mut i: usize = 0;
    while i < folders.len()
        invariant
            i <= folders@.len(),
            names == folder_names(folders.deep_view()),
            names.len() == folders@.len(),
            forall|j: int| 0 <= j < i ==> names[j] != name@,
        decreases folders@.len() - i,
    {
        proof {
            assert(folders.deep_view()[i as int] == folders@[i as int].deep_view());
            assert(names[i as int] == folders@[i as int].name@);
        }
        if folders[i].name.eq(name) {
            proof {
                names.index_of_first_ensures(name@);
                assert(names[i as int] == name@);
                assert(names.index_of_first(name@) == Some(i as int));
            }
            return Ok(&folders[i]);
        }
        i = i + 1;
    }
    proof {
        names.index_of_first_ensures(name@);
        if names.contains(name@) {
            let witness = choose|j: int| 0 <= j < names.len() && names[j] == name@;
            assert(names[witness] != name@);
        }
    }
    Err(LookupError::FolderNotFound { name: name.clone() })
}

/// Find the first Dot of a Folder with the given name.
///
/// Fails with `DotNotFound` exactly when no Dot of the Folder bears the
/// name.
pub fn find_dot<'a>(folder: &'a DotFolder, name: &String) -> (r: Result<&'a Dot, LookupError>)
    ensures
        match r {
            Ok(d) => {
                &&& dot_names(folder@.dots).index_of_first(name@) matches Some(i)
                &&& d@ == folder@.dots[dot_names(folder@.dots).index_of_first(name@).unwrap()]
            },
            Err(e) => {
                &&& dot_names(folder@.dots).index_of_first(name@) is None
                &&& e matches LookupError::DotNotFound { name: n } && n@ == name@
            },
        },
{
    let ghost names = dot_names(folder@.dots);
    let mut i: usize = 0;
    while i < folder.dots.len()
        invariant
            i <= folder.dots@.len(),
            names == dot_names(folder@.dots),
            names.len() == folder.dots@.len(),
            forall|j: int| 0 <= j < i ==> names[j] != name@,
        decreases folder.dots@.len() - i,
    {
        proof {
            assert(folder@.dots[i as int] == folder.dots@[i as int].deep_view());
            assert(names[i as int] == folder.dots@[i as int].name@);
        }
        if folder.dots[i].name.eq(name) {
            proof {
                names.index_of_first_ensures(name@);
                assert(names[i as int] == name@);
                assert(names.index_of_first(name@) == Some(i as int));
            }
            return Ok(&folder.dots[i]);
        }
        i = i + 1;
    }
    proof {
        names.index_of_first_ensures(name@);
        if names.contains(name@) {
            let witness = choose|j: int| 0 <= j < names.len() && names[j] == name@;
            assert(names[witness] != name@);
        }
    }
    Err(LookupError::DotNotFound { name: name.clone() })
}

} // verus!
