use vstd::prelude::*;

verus! {

/// Namespace used when the operator names none.
pub const DEFAULT_NAMESPACE: &'static str = "default";

/// What stands for the application's name in the container name of a
/// singleton service.
pub const SINGLETON_PREFIX: &'static str = "dploy-singleton";

/// Directory on the host under which every path of the tool lies.
pub const DPLOY_DIR: &'static str = "/var/lib/dploy";

/// Address through which the host reaches an exposed port.
pub const LOOPBACK: &'static str = "127.0.0.1";

/// The tag under which the image of a dependency is pulled.
pub const DEPENDENCY_IMAGE_TAG: &'static str = "latest";

/// How often a watching session polls for change events, in milliseconds.
pub const WATCH_POLL_INTERVAL_MS: u64 = 1000;

/// Time after a deployment during which change events are discarded, in
/// milliseconds.
pub const WATCH_COOLDOWN_MS: u64 = 3000;

} // verus!
