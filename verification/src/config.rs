//! The configuration that the commands of the tasks are built from:
//! repositories, package lists and command templates.

use vstd::prelude::*;

verus! {

/// Repositories that the system is set up with.
#[derive(Debug)]
pub struct Repositories {
    pub rpm_fusion_free: String,
    pub rpm_fusion_nonfree: String,
    pub docker: String,
    pub terra: String,
}

/// A list of packages of one package manager.
#[derive(Debug)]
pub struct PackageGroup {
    pub description: String,
    pub packages: Vec<String>,
    /// Whether the service that the packages bring is enabled after the
    /// installation.
    pub enable_service: bool,
}

/// Flatpak applications and the remote they come from.
#[derive(Debug)]
pub struct FlatpakGroup {
    pub description: String,
    pub remote: String,
    pub apps: Vec<String>,
}

/// Homebrew: where its installer is, and the packages to install with it.
#[derive(Debug)]
pub struct HomebrewGroup {
    pub description: String,
    pub install_script: String,
    pub packages: Vec<String>,
}

/// Where the OpenCode package is.
#[derive(Debug)]
pub struct OpenCodeGroup {
    pub description: String,
    pub url: String,
}

/// What each task installs.
#[derive(Debug)]
pub struct Packages {
    pub dnf: PackageGroup,
    pub docker: PackageGroup,
    pub flatpak: FlatpakGroup,
    pub terra: PackageGroup,
    pub homebrew: HomebrewGroup,
    pub cargo: PackageGroup,
    pub opencode: OpenCodeGroup,
}

/// Command templates.
#[derive(Debug)]
pub struct Commands {
    /// Updates the system's packages.
    pub update: String,
    /// Prints the shell code that sets up Homebrew's environment.
    pub shell_init: String,
}

/// The whole configuration.
#[derive(Debug)]
pub struct Config {
    pub repositories: Repositories,
    pub packages: Packages,
    pub commands: Commands,
}

} // verus!
