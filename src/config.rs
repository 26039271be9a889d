//! The configuration model: what the package manifest and the cook file hold.
use vstd::prelude::*;

verus! {

/// A declared input: a file, or a directory whose entries are taken, all of
/// them or those whose names match `filter`.
#[derive(Clone, Debug, Default, PartialEq, Eq)]
pub struct CookIngredient {
    pub source: String,
    pub filter: Option<String>,
    pub destination: String,
}

/// Where the secure-shell target uploads to, and the script it runs there.
#[derive(Clone, Debug, Default, PartialEq, Eq)]
pub struct SshConfig {
    pub hostname: String,
    pub username: String,
    pub remote_path: String,
    pub deploy_script: Option<String>,
}

/// The local directory that the filesystem-copy target copies into.
#[derive(Clone, Debug, Default, PartialEq, Eq)]
pub struct FsCopy {
    pub path: String,
}

/// The deploy targets to run, and the parameters of each kind of target.
#[derive(Clone, Debug, Default, PartialEq, Eq)]
pub struct Deploy {
    pub targets: Option<Vec<String>>,
    pub ssh: Option<SshConfig>,
    pub fscopy: Option<FsCopy>,
}

/// The cook settings.
#[derive(Clone, Debug, Default, PartialEq, Eq)]
pub struct Cook {
    pub target_directory: String,
    pub target_rename: Option<String>,
    pub hashes: Option<Vec<String>>,
    pub containers: Vec<String>,
    pub pre_cook: Option<String>,
    pub post_cook: Option<String>,
    pub include_dependencies: Option<bool>,
    pub cook_directory: String,
    pub deploy: Option<Deploy>,
    pub ingredient: Option<Vec<CookIngredient>>,
}

/// The package's name and version.
#[derive(Clone, Debug, Default, PartialEq, Eq)]
pub struct Package {
    pub name: String,
    pub version: String,
}

/// The cook file.
#[derive(Clone, Debug, Default, PartialEq, Eq)]
pub struct CookConfig {
    pub cook: Cook,
}

/// The package manifest.
#[derive(Clone, Debug, Default, PartialEq, Eq)]
pub struct CargoConfig {
    pub package: Package,
}

} // verus!
