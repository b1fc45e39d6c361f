//! Release queries of a project.

use crate::paths::{
    latest_release_path, releases_path, spec_latest_release_path, spec_releases_path,
};
use vstd::prelude::*;

verus! {

/// Configuration for reading the releases of a project.
#[derive(Debug)]
pub struct ProjectReleasesGet {
    pub project_id: u64,
}

impl ProjectReleasesGet {
    /// A release query for a project known by its numeric ID.
    pub fn new(project_id: u64) -> (r: Self)
        ensures
            r.project_id == project_id,
    {
        ProjectReleasesGet { project_id }
    }

    /// The path listing all releases of the project.
    pub fn list_path(&self) -> (r: String)
        ensures
            r@ == spec_releases_path(self.project_id),
    {
        releases_path(self.project_id)
    }

    /// The path of the latest release of the project.
    pub fn latest_path(&self) -> (r: String)
        ensures
            r@ == spec_latest_release_path(self.project_id),
    {
        latest_release_path(self.project_id)
    }
}

} // verus!
