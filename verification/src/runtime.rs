use vstd::prelude::*;

verus! {

/// Where the image of a container comes from.
#[derive(Clone, Copy, Debug, PartialEq, Eq, Structural)]
pub enum ImageSource {
    /// Pulled from a registry. The pull is asked for every time, whether or
    /// not the host holds an image of that name already.
    Registry,
    /// Built on the spot from the application's build context.
    LocalBuild,
}

/// How a mount's source is provided. The tool mounts host directories only.
#[derive(Clone, Copy, Debug, PartialEq, Eq, Structural)]
pub enum MountType {
    Bind,
}

/// One directory of the host made visible inside a container.
#[derive(Clone, Debug)]
pub struct Mount {
    /// Path on the host.
    pub source: String,
    /// Path inside the container.
    pub target: String,
    pub typ: MountType,
    /// Whether the runtime creates the host directory when it is missing.
    pub create_mountpoint: bool,
}

pub struct MountView {
    pub source: Seq<char>,
    pub target: Seq<char>,
    pub typ: MountType,
    pub create_mountpoint: bool,
}

impl View for Mount {
    type V = MountView;

    open spec fn view(&self) -> MountView {
        MountView {
            source: self.source@,
            target: self.target@,
            typ: self.typ,
            create_mountpoint: self.create_mountpoint,
        }
    }
}

/// The bind mount of `source` at `target` that creates its mount point.
pub open spec fn bind_mount(source: Seq<char>, target: Seq<char>) -> MountView {
    MountView { source, target, typ: MountType::Bind, create_mountpoint: true }
}

/// Where on the host a published container port can be reached.
#[derive(Clone, Debug)]
pub struct PortBinding {
    pub host_ip: String,
    /// The port number in decimal.
    pub host_port: String,
}

pub struct PortBindingView {
    pub host_ip: Seq<char>,
    pub host_port: Seq<char>,
}

impl View for PortBinding {
    type V = PortBindingView;

    open spec fn view(&self) -> PortBindingView {
        PortBindingView { host_ip: self.host_ip@, host_port: self.host_port@ }
    }
}

impl DeepView for PortBinding {
    type V = PortBindingView;

    open spec fn deep_view(&self) -> PortBindingView {
        self@
    }
}

/// What the runtime is asked to run for one service: made anew for every
/// deployment, and tied to earlier ones by the container's name alone.
#[derive(Clone, Debug)]
pub struct ContainerConfig {
    pub container_name: String,
    pub image_name: String,
    pub image_source: ImageSource,
    /// The variables set inside the container.
    pub env: Vec<(String, String)>,
    pub mounts: Vec<Mount>,
    /// The ports published on the host, by key.
    pub port_bindings: Vec<(String, PortBinding)>,
}

impl ContainerConfig {
    pub fn container_name(&self) -> (name: &str)
        ensures
            name@ == self.container_name@,
    {
        self.container_name.as_str()
    }

    pub fn image_name(&self) -> (name: &str)
        ensures
            name@ == self.image_name@,
    {
        self.image_name.as_str()
    }
}

} // verus!
