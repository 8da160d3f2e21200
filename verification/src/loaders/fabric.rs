//! Fabric, installed from meta.fabricmc.net. Fabric leaves the vanilla jar
//! alone: its launch profile adds libraries and a main class (KnotClient) that
//! loads the game.

use vstd::prelude::*;
use crate::http::{spec_get, HttpRequest};
use super::{
    install_from_profile, is_install_of, loader_versions_request, profile_request,
    spec_loader_versions_url, spec_profile_url, LoaderInstall, LoaderProfile,
};

verus! {

pub const META_BASE: &'static str = "https://meta.fabricmc.net/v2";
pub const DEFAULT_MAIN_CLASS: &'static str = "net.fabricmc.loader.impl.launch.knot.KnotClient";
pub const DEFAULT_REPOSITORY: &'static str = "https://maven.fabricmc.net/";

#[derive(Debug, Clone, PartialEq, Eq)]
pub struct LoaderVersion {
    pub loader: LoaderInfo,
}

#[derive(Debug, Clone, PartialEq, Eq)]
pub struct LoaderInfo {
    pub version: String,
    pub stable: bool,
}

/// The Fabric loader versions available for a game version.
pub fn list_loader_versions(mc_version: &str) -> (r: HttpRequest)
    ensures
        r@ == spec_get(spec_loader_versions_url(META_BASE@, mc_version@)),
{
    loader_versions_request(META_BASE, mc_version)
}

/// The Fabric launch profile of a game version and loader version.
pub fn profile(mc_version: &str, loader_version: &str) -> (r: HttpRequest)
    ensures
        r@ == spec_get(spec_profile_url(META_BASE@, mc_version@, loader_version@)),
{
    profile_request(META_BASE, mc_version, loader_version)
}

/// What installing Fabric from its launch profile downloads and puts on the
/// classpath, and the main class to start.
pub fn install(profile: &LoaderProfile) -> (r: LoaderInstall)
    ensures
        is_install_of(r, *profile, DEFAULT_MAIN_CLASS@, DEFAULT_REPOSITORY@),
{
    install_from_profile(profile, DEFAULT_MAIN_CLASS, DEFAULT_REPOSITORY)
}

} // verus!
