use vstd::prelude::*;

use crate::runtime::ImageSource;

verus! {

/// The kinds of container that one application instance is made of: the
/// application itself and the dependencies it can declare.
#[derive(Clone, Copy, Debug, PartialEq, Eq, Structural)]
pub enum ServiceKind {
    Postgres,
    Keydb,
    Proxy,
    App,
}

impl ServiceKind {
    /// A singleton is shared by every application on the host, so its
    /// identity does not depend on any application's name.
    pub open spec fn spec_is_singleton(&self) -> bool {
        *self == ServiceKind::Proxy
    }

    #[verifier::when_used_as_spec(spec_is_singleton)]
    pub fn is_singleton(&self) -> (singleton: bool)
        ensures
            singleton == self.spec_is_singleton(),
    {
        match self {
            ServiceKind::Proxy => true,
            ServiceKind::Postgres | ServiceKind::Keydb | ServiceKind::App => false,
        }
    }

    /// A kind that binds straight to the host's network lives in the default
    /// namespace whatever namespace the rest of the instance uses.
    pub open spec fn spec_binds_host_network(&self) -> bool {
        *self == ServiceKind::Proxy
    }

    #[verifier::when_used_as_spec(spec_binds_host_network)]
    pub fn binds_host_network(&self) -> (bound: bool)
        ensures
            bound == self.spec_binds_host_network(),
    {
        match self {
            ServiceKind::Proxy => true,
            ServiceKind::Postgres | ServiceKind::Keydb | ServiceKind::App => false,
        }
    }

    /// Where the kind's image comes from: the application's is built on
    /// the spot, a dependency's is pulled.
    pub open spec fn spec_image_source(&self) -> ImageSource {
        if *self == ServiceKind::App {
            ImageSource::LocalBuild
        } else {
            ImageSource::Registry
        }
    }

    #[verifier::when_used_as_spec(spec_image_source)]
    pub fn image_source(&self) -> (source: ImageSource)
        ensures
            source == self.spec_image_source(),
    {
        match self {
            ServiceKind::App => ImageSource::LocalBuild,
            ServiceKind::Postgres | ServiceKind::Keydb | ServiceKind::Proxy => ImageSource::Registry,
        }
    }

    /// The fixed tag a dependency carries in its container's name. The
    /// application has none: it is tagged with its own configured name.
    pub open spec fn spec_naming_tag(&self) -> Option<Seq<char>> {
        match self {
            ServiceKind::Postgres => Some("postgres"@),
            ServiceKind::Keydb => Some("keydb"@),
            ServiceKind::Proxy => Some("proxy"@),
            ServiceKind::App => None,
        }
    }

    pub fn naming_tag(&self) -> (tag: Option<&'static str>)
        ensures
            tag is Some == self.spec_naming_tag() is Some,
            tag matches Some(t) ==> t@ == self.spec_naming_tag()->0,
    {
        match self {
            ServiceKind::Postgres => Some("postgres"),
            ServiceKind::Keydb => Some("keydb"),
            ServiceKind::Proxy => Some("proxy"),
            ServiceKind::App => None,
        }
    }
}

} // verus!
