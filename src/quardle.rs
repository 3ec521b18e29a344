//! A quardle to build: its name, its container image and its mode.
use vstd::prelude::*;
use crate::layout::{is_layout_of, work_dir, work_dir_of, StagingLayout};
use crate::manifest::BuildRequest;
use crate::pipeline::{build_plan, plan_build, Action, Staging};

verus! {

/// Why a build stopped. Every failure is fatal to the build that met it.
#[derive(Debug, Clone, Copy, PartialEq, Eq, Structural)]
pub enum Error {
    /// An external tool exited non-zero or could not be started.
    Tool,
    /// Creating, copying, removing, opening or writing a file failed.
    Filesystem,
    /// Encoding or decoding the manifest failed.
    Serialization,
    /// Cloning or checking out the runtime's sources failed.
    SourceControl,
}

/// A quardle to build.
#[derive(Default, Debug, Clone)]
pub struct Quardle {
    pub name: String,
    pub container_image_url: String,
    pub offline: bool,
}

impl Quardle {
    /// A quardle with the given name, container image and mode.
    pub fn new(name: String, container_image_url: String, offline: bool) -> (r: Option<Self>)
        ensures
            r matches Some(q) && q.name == name && q.container_image_url == container_image_url
                && q.offline == offline,
    {
        Some(Quardle { name, container_image_url, offline })
    }

    /// The staging directory of the quardle: `/tmp/quark/builds/<name>/`.
    pub fn get_work_dir(self) -> (r: String)
        ensures
            r@ == work_dir_of(self.name@),
    {
        work_dir(self.name.as_str())
    }

    /// The staging paths of the quardle.
    pub fn layout(&self) -> (r: StagingLayout)
        ensures
            is_layout_of(&r, self.name@),
    {
        StagingLayout::new(self.name.as_str())
    }

    /// The build request of the quardle, with the default kernel command line.
    pub fn request(&self) -> (r: BuildRequest)
        ensures
            r.name == self.name,
            r.image == self.container_image_url,
            r.offline == self.offline,
            r.kernel_cmdline is None,
    {
        BuildRequest {
            name: self.name.clone(),
            image: self.container_image_url.clone(),
            offline: self.offline,
            kernel_cmdline: None,
        }
    }

    /// The actions a build of the quardle still has to run on a staging
    /// directory holding `staging`; `delete_after == Some(true)` asks for the
    /// scratch products to be removed once the archive is written.
    pub fn plan(&self, staging: Staging, delete_after: Option<bool>) -> (r: Vec<Action>)
        ensures
            r@ == build_plan(self.offline, staging, delete_after == Some(true)),
    {
        let cleanup = match delete_after {
            Some(d) => d,
            None => false,
        };
        plan_build(self.offline, staging, cleanup)
    }
}

} // verus!
