//! The Nix distributions that can be installed and where their tarballs come from.

use vstd::prelude::*;

verus! {

/// A location given either as a URL or as a filesystem path, kept as written.
#[derive(Debug)]
pub enum UrlOrPath {
    Url(String),
    Path(String),
}

impl Clone for UrlOrPath {
    fn clone(&self) -> (r: Self)
        ensures
            r == *self,
    {
        match self {
            UrlOrPath::Url(u) => UrlOrPath::Url(u.clone()),
            UrlOrPath::Path(p) => UrlOrPath::Path(p.clone()),
        }
    }
}

/// The Nix distribution to install.
#[derive(Copy, Clone, Debug, PartialEq, Eq, Structural)]
pub enum Distribution {
    Nix,
    DeterminateNix,
}

/// Where the tarball to install comes from.
#[derive(Debug)]
pub enum TarballLocation {
    /// Fetched from a URL or read from a path.
    UrlOrPath(UrlOrPath),
    /// Embedded into the installer: the path it was embedded from.
    InMemory(String),
}

/// The tarball locations fixed when the installer was built.
#[derive(Debug)]
pub struct BuiltinTarballs {
    /// The location of the upstream Nix tarball.
    pub nix_tarball: UrlOrPath,
    /// The path the Determinate Nix tarball was embedded from.
    pub determinate_nix_tarball_path: String,
}

impl Distribution {
    pub fn is_determinate(&self) -> (r: bool)
        ensures
            r <==> *self == Distribution::DeterminateNix,
    {
        *self == Distribution::DeterminateNix
    }

    pub fn is_upstream(&self) -> (r: bool)
        ensures
            r <==> *self == Distribution::Nix,
    {
        *self == Distribution::Nix
    }

    /// The tarball that the distribution installs by default.
    pub fn tarball_location(&self, builtin: &BuiltinTarballs) -> (r: TarballLocation)
        ensures
            *self == Distribution::Nix ==> r == TarballLocation::UrlOrPath(builtin.nix_tarball),
            *self == Distribution::DeterminateNix ==> r == TarballLocation::InMemory(
                builtin.determinate_nix_tarball_path,
            ),
    {
        match self {
            Distribution::Nix => TarballLocation::UrlOrPath(builtin.nix_tarball.clone()),
            Distribution::DeterminateNix => TarballLocation::InMemory(
                builtin.determinate_nix_tarball_path.clone(),
            ),
        }
    }

    /// The user's preferred tarball if one was given, else the default one.
    pub fn tarball_location_or(
        &self,
        user_preference: &Option<UrlOrPath>,
        builtin: &BuiltinTarballs,
    ) -> (r: TarballLocation)
        ensures
            *user_preference matches Some(pref) ==> r == TarballLocation::UrlOrPath(pref),
            *user_preference is None && *self == Distribution::Nix ==> r
                == TarballLocation::UrlOrPath(builtin.nix_tarball),
            *user_preference is None && *self == Distribution::DeterminateNix ==> r
                == TarballLocation::InMemory(builtin.determinate_nix_tarball_path),
    {
        if let Some(pref) = user_preference {
            return TarballLocation::UrlOrPath(pref.clone());
        }
        self.tarball_location(builtin)
    }
}

} // verus!
