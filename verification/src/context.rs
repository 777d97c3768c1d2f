use vstd::prelude::*;
use vstd::string::*;

use crate::cli::{Args, Command};
use crate::config::{AppConfig, OverrideContext};
use crate::constants::{DEFAULT_NAMESPACE, DPLOY_DIR, LOOPBACK, SINGLETON_PREFIX};
use crate::pairs::{distinct_names, has_name, lemma_upsert_at_first, upserted};
use crate::runtime::{bind_mount, ContainerConfig, Mount, MountType, PortBinding, PortBindingView};
use crate::services::ServiceKind;
use crate::text::{decimal, escape_separators, escaped, join_path, joined, render_decimal};

verus! {

/// The name of the container that runs `kind` for the application
/// `app_name` in `namespace`: three segments joined by underscores.
///
/// The first is the application's name, or the singleton prefix for a kind
/// that all applications share. The second is the kind's tag, or the
/// application's name again for the application itself. The third is the
/// namespace, or the default namespace for a kind bound to the host's
/// network.
pub open spec fn container_name(namespace: Seq<char>, app_name: Seq<char>, kind: ServiceKind) -> Seq<
    char,
> {
    let prefix = if kind.spec_is_singleton() {
        SINGLETON_PREFIX@
    } else {
        app_name
    };
    let suffix = match kind.spec_naming_tag() {
        Some(tag) => tag,
        None => app_name,
    };
    let segment = if kind.spec_binds_host_network() {
        DEFAULT_NAMESPACE@
    } else {
        namespace
    };
    prefix + seq!['_'] + suffix + seq!['_'] + segment
}

/// The host directory that backs the path `inner_path` of the container
/// `container_name`.
pub open spec fn volume_path(container_name: Seq<char>, inner_path: Seq<char>) -> Seq<char> {
    DPLOY_DIR@ + "/volumes/"@ + container_name + seq!['/'] + escaped(inner_path)
}

/// What one invocation works with: the parsed command line, the
/// application's configuration and the override rules. It is built once and
/// never changes.
#[derive(Debug)]
pub struct Context {
    args: Args,
    app_config: AppConfig,
    override_context: OverrideContext,
}

impl Context {
    pub closed spec fn spec_args(&self) -> &Args {
        &self.args
    }

    pub closed spec fn spec_app_config(&self) -> &AppConfig {
        &self.app_config
    }

    pub closed spec fn spec_override_context(&self) -> &OverrideContext {
        &self.override_context
    }

    pub open spec fn spec_namespace(&self) -> Seq<char> {
        self.args().namespace@
    }

    /// The application's name as it holds for the running command.
    pub open spec fn spec_app_name(&self) -> Seq<char> {
        self.app_config().spec_name(self.override_context())
    }

    pub open spec fn spec_container_name_of(&self, service_kind: ServiceKind) -> Seq<char> {
        container_name(self.spec_namespace(), self.spec_app_name(), service_kind)
    }

    /// Puts together what one invocation works with.
    pub fn new(args: Args, app_config: AppConfig, override_context: OverrideContext) -> (context:
        Self)
        ensures
            *context.args() == args,
            *context.app_config() == app_config,
            *context.override_context() == override_context,
    {
        Self { args, app_config, override_context }
    }

    #[verifier::when_used_as_spec(spec_args)]
    pub fn args(&self) -> (args: &Args)
        ensures
            args == self.spec_args(),
    {
        &self.args
    }

    #[verifier::when_used_as_spec(spec_override_context)]
    pub fn override_context(&self) -> (override_context: &OverrideContext)
        ensures
            override_context == self.spec_override_context(),
    {
        &self.override_context
    }

    pub fn namespace(&self) -> (namespace: &str)
        ensures
            namespace@ == self.spec_namespace(),
    {
        self.args().namespace()
    }

    #[verifier::when_used_as_spec(spec_app_config)]
    pub fn app_config(&self) -> (app_config: &AppConfig)
        ensures
            app_config == self.spec_app_config(),
    {
        &self.app_config
    }

    /// The name of the container of `service_kind`. It depends on the
    /// namespace, the application's name and the kind, and on nothing else.
    pub fn container_name_of(&self, service_kind: ServiceKind) -> (name: String)
        ensures
            name@ == self.spec_container_name_of(service_kind),
    {
        let app_name = self.app_config.name(&self.override_context);
        let prefix = if service_kind.is_singleton() {
            SINGLETON_PREFIX
        } else {
            app_name
        };
        let suffix = match service_kind.naming_tag() {
            Some(tag) => tag,
            None => app_name,
        };
        let namespace = if service_kind.binds_host_network() {
            // not namespaced because it is exposed to the host's network
            DEFAULT_NAMESPACE
        } else {
            self.namespace()
        };
        proof {
            reveal_strlit("_");
        }
        let mut name = String::from_str(prefix);
        name.append("_");
        name.append(suffix);
        name.append("_");
        name.append(namespace);
        assert(name@ =~= self.spec_container_name_of(service_kind));
        name
    }

    /// The directory of the host that backs `path` of the container of
    /// `service_kind`. It lies in that container's own directory under the
    /// tool's volume root, and its name is `path` with every separator
    /// replaced, so that no path of a container reaches another directory.
    pub fn volume_path_of(&self, service_kind: ServiceKind, path: &str) -> (host_path: String)
        ensures
            host_path@ == volume_path(self.spec_container_name_of(service_kind), path@),
    {
        let container_name = self.container_name_of(service_kind);
        let escaped_path = escape_separators(path);
        proof {
            reveal_strlit("/");
        }
        let mut host_path = self.get_dploy_dir();
        host_path.append("/volumes/");
        host_path.append(container_name.as_str());
        host_path.append("/");
        host_path.append(escaped_path.as_str());
        assert(host_path@ =~= volume_path(self.spec_container_name_of(service_kind), path@));
        host_path
    }

    /// Whether the services' ports are bound to ports of the host: on the
    /// local commands.
    pub open spec fn spec_should_expose_to_host(&self) -> bool {
        self.args().command is Dev || self.args().command is Run
    }

    #[verifier::when_used_as_spec(spec_should_expose_to_host)]
    pub fn should_expose_to_host(&self) -> (expose: bool)
        ensures
            expose == self.spec_should_expose_to_host(),
    {
        matches!(self.args.command(), Command::Dev { .. } | Command::Run { .. })
    }

    /// Whether the application's port is bound to a port of the host:
    /// where it runs locally.
    pub open spec fn spec_should_expose_app_service_to_host(&self) -> bool {
        self.args().command is Run
    }

    #[verifier::when_used_as_spec(spec_should_expose_app_service_to_host)]
    pub fn should_expose_app_service_to_host(&self) -> (expose: bool)
        ensures
            expose == self.spec_should_expose_app_service_to_host(),
    {
        matches!(self.args.command(), Command::Run { .. })
    }

    /// Whether the operator is shown where the services can be reached: on
    /// the local commands.
    pub open spec fn spec_should_print_connection_info(&self) -> bool {
        self.args().command is Dev || self.args().command is Run
    }

    #[verifier::when_used_as_spec(spec_should_print_connection_info)]
    pub fn should_print_connection_info(&self) -> (print: bool)
        ensures
            print == self.spec_should_print_connection_info(),
    {
        matches!(self.args.command(), Command::Dev { .. } | Command::Run { .. })
    }

    /// Whether the application runs in a container of its own: on every
    /// command but the one that runs the dependencies only.
    pub open spec fn spec_should_create_app_service(&self) -> bool {
        self.args().command is Deploy || self.args().command is Run
    }

    #[verifier::when_used_as_spec(spec_should_create_app_service)]
    pub fn should_create_app_service(&self) -> (create: bool)
        ensures
            create == self.spec_should_create_app_service(),
    {
        matches!(self.args.command(), Command::Deploy { .. } | Command::Run { .. })
    }

    /// Whether a proxy stands before the application: on a remote
    /// deployment that starts the instance.
    pub open spec fn spec_should_create_proxy_service(&self) -> bool {
        self.args().command matches Command::Deploy { command, .. } && command is None
    }

    #[verifier::when_used_as_spec(spec_should_create_proxy_service)]
    pub fn should_create_proxy_service(&self) -> (create: bool)
        ensures
            create == self.spec_should_create_proxy_service(),
    {
        matches!(self.args.command(), Command::Deploy { command: None, .. })
    }

    /// Whether the environment file is generated: on the local commands.
    pub open spec fn spec_should_generate_env_file(&self) -> bool {
        self.args().command is Dev || self.args().command is Run
    }

    #[verifier::when_used_as_spec(spec_should_generate_env_file)]
    pub fn should_generate_env_file(&self) -> (generate: bool)
        ensures
            generate == self.spec_should_generate_env_file(),
    {
        matches!(self.args.command(), Command::Dev { .. } | Command::Run { .. })
    }

    /// Whether the network shared by the containers is set up: on the
    /// local commands.
    pub open spec fn spec_should_create_network(&self) -> bool {
        self.args().command is Dev || self.args().command is Run
    }

    #[verifier::when_used_as_spec(spec_should_create_network)]
    pub fn should_create_network(&self) -> (create: bool)
        ensures
            create == self.spec_should_create_network(),
    {
        matches!(self.args.command(), Command::Dev { .. } | Command::Run { .. })
    }

    /// The dependencies that a deployment reconciles: those that the
    /// configuration declares, in its order, and after them the proxy where
    /// the command runs one.
    pub open spec fn spec_active_dependencies(&self, declared: Seq<ServiceKind>) -> Seq<
        ServiceKind,
    > {
        if self.should_create_proxy_service() {
            declared.push(ServiceKind::Proxy)
        } else {
            declared
        }
    }

    pub fn active_dependencies(&self, declared: &Vec<ServiceKind>) -> (active: Vec<ServiceKind>)
        ensures
            active@ == self.spec_active_dependencies(declared@),
    {
        let mut active: Vec<ServiceKind> = Vec::new();
        let mut i: usize = 0;
        while i < declared.len()
            invariant
                i <= declared.len(),
                active@ == declared@.take(i as int),
            decreases declared.len() - i,
        {
            active.push(declared[i]);
            i += 1;
            assert(active@ =~= declared@.take(i as int));
        }
        assert(declared@.take(declared.len() as int) =~= declared@);
        if self.should_create_proxy_service() {
            active.push(ServiceKind::Proxy);
        }
        active
    }

    /// The mount of a host path chosen by the caller, taken relative to the
    /// tool's directory, at `inner_path`.
    pub fn manual_mount(&self, outer_path: &str, inner_path: &str) -> (mount: Mount)
        ensures
            mount@ == bind_mount(joined(DPLOY_DIR@, outer_path@), inner_path@),
    {
        Mount {
            source: self.manual_volume_path(outer_path),
            target: String::from_str(inner_path),
            typ: MountType::Bind,
            create_mountpoint: true,
        }
    }

    /// A path chosen by the caller, taken relative to the tool's directory.
    pub fn manual_volume_path(&self, outer_path: &str) -> (path: String)
        ensures
            path@ == joined(DPLOY_DIR@, outer_path@),
    {
        join_path(self.get_dploy_dir().as_str(), outer_path)
    }

    /// The mount that backs `inner_path` of the container of `service_kind`
    /// with that container's own volume directory.
    pub fn mount(&self, service_kind: ServiceKind, inner_path: &str) -> (mount: Mount)
        ensures
            mount@ == bind_mount(
                volume_path(self.spec_container_name_of(service_kind), inner_path@),
                inner_path@,
            ),
    {
        Mount {
            source: self.volume_path_of(service_kind, inner_path),
            target: String::from_str(inner_path),
            typ: MountType::Bind,
            create_mountpoint: true,
        }
    }

    /// The binding of the port `inner_port` of the container of
    /// `service_kind`. `free_port` is a port that the host has free: it
    /// becomes the host's side of the binding where the command exposes one.
    pub fn host_port_binding_of(
        &self,
        service_kind: ServiceKind,
        inner_port: u16,
        free_port: u16,
    ) -> (binding: HostPortBinding)
        ensures
            binding@ == port_binding(
                self.spec_container_name_of(service_kind),
                inner_port,
                self.args().command,
                free_port,
            ),
    {
        let container_name = self.container_name_of(service_kind);
        HostPortBinding::new(container_name.as_str(), inner_port, self.args.command(), free_port)
    }

    pub open spec fn spec_ssh_credentials(&self) -> Option<SshCredentialsView> {
        match self.args().command {
            Command::Deploy { host, port, username, keyfile, .. } => Some(
                SshCredentialsView {
                    host: host@,
                    port,
                    username: username@,
                    keyfile: match keyfile {
                        Some(path) => Some(path@),
                        None => None,
                    },
                },
            ),
            _ => None,
        }
    }

    /// Describes the container of `service_kind` to the runtime: under the
    /// name that the kind has in this context, and with what `bindings`
    /// publish.
    pub fn container_config_of(
        &self,
        service_kind: ServiceKind,
        image_name: &str,
        env: Vec<(String, String)>,
        mounts: Vec<Mount>,
        bindings: &[&HostPortBinding],
    ) -> (config: ContainerConfig)
        ensures
            config.container_name@ == self.spec_container_name_of(service_kind),
            config.image_name@ == image_name@,
            config.image_source == service_kind.image_source(),
            config.env == env,
            config.mounts == mounts,
            config.port_bindings.deep_view() == port_bindings(bindings.deep_view()),
    {
        ContainerConfig {
            container_name: self.container_name_of(service_kind),
            image_name: String::from_str(image_name),
            image_source: service_kind.image_source(),
            env,
            mounts,
            port_bindings: HostPortBinding::to_port_bindings(bindings),
        }
    }

    /// How to reach the remote host; `None` unless the command deploys to
    /// one.
    pub fn ssh_credentials(&self) -> (credentials: Option<SshCredentials>)
        ensures
            credentials is Some == self.spec_ssh_credentials() is Some,
            credentials matches Some(c) ==> c@ == self.spec_ssh_credentials()->0,
    {
        match self.args().command() {
            Command::Deploy { host, port, username, keyfile, .. } => {
                let keyfile = match keyfile {
                    Some(path) => Some(path.clone()),
                    None => None,
                };
                Some(SshCredentials::new(host.clone(), *port, username.clone(), keyfile))
            },
            _ => None,
        }
    }

    fn get_dploy_dir(&self) -> (dir: String)
        ensures
            dir@ == DPLOY_DIR@,
    {
        String::from_str(DPLOY_DIR)
    }
}

/// One port of a service as three parties see it: the application's
/// container (`inner`), the operator's machine (`host`) and the service
/// itself inside its container (`internal`).
#[derive(Clone, Debug)]
pub struct HostPortBinding {
    /// The port for communication of the app service with this service
    inner_port: u16,
    inner_host: String,
    /// The port for communication of the host with this service
    host_port: Option<u16>,
    host_host: String,
    /// The port inside the container
    internal_port: u16,
}

pub struct HostPortBindingView {
    pub inner_port: u16,
    pub inner_host: Seq<char>,
    pub host_port: Option<u16>,
    pub host_host: Seq<char>,
    pub internal_port: u16,
}

impl View for HostPortBinding {
    type V = HostPortBindingView;

    closed spec fn view(&self) -> HostPortBindingView {
        HostPortBindingView {
            inner_port: self.inner_port,
            inner_host: self.inner_host@,
            host_port: self.host_port,
            host_host: self.host_host@,
            internal_port: self.internal_port,
        }
    }
}

impl DeepView for HostPortBinding {
    type V = HostPortBindingView;

    open spec fn deep_view(&self) -> HostPortBindingView {
        self@
    }
}

/// The binding of a service's port under each command.
///
/// Run locally with dependencies only, a service is reached by everyone
/// through the host: the application uses the loopback address and the
/// host's port. Run locally in full, the host has its port, and the
/// application uses the container's name and the port inside it. Deployed
/// to a remote host, nothing is exposed, and the application again uses the
/// container's name and the port inside it.
pub open spec fn port_binding(
    container_name: Seq<char>,
    internal_port: u16,
    command: Command,
    free_port: u16,
) -> HostPortBindingView {
    HostPortBindingView {
        inner_port: if command is Dev {
            free_port
        } else {
            internal_port
        },
        inner_host: if command is Dev {
            LOOPBACK@
        } else {
            container_name
        },
        host_port: if command is Deploy {
            None
        } else {
            Some(free_port)
        },
        host_host: LOOPBACK@,
        internal_port,
    }
}

/// The variables that tell the application where a service is: its host and
/// its port as the application's container sees them.
pub open spec fn connection_vars(prefix: Seq<char>, binding: HostPortBindingView) -> Seq<
    (Seq<char>, Seq<char>),
> {
    seq![
        (prefix + "_HOST"@, binding.inner_host),
        (prefix + "_PORT"@, decimal(binding.inner_port as nat)),
    ]
}

/// The key under which the runtime publishes a container's port.
pub open spec fn port_key(internal_port: u16) -> Seq<char> {
    decimal(internal_port as nat) + "/tcp"@
}

/// What a list of bindings publishes, as pairs of key and host address: one
/// pair for each port inside a container that some binding exposes, with the
/// address of the last such binding. A binding without a host port adds
/// nothing.
pub open spec fn port_bindings(bindings: Seq<HostPortBindingView>) -> Seq<
    (Seq<char>, PortBindingView),
>
    decreases bindings.len(),
{
    if bindings.len() == 0 {
        Seq::empty()
    } else {
        let earlier = port_bindings(bindings.drop_last());
        let binding = bindings.last();
        match binding.host_port {
            Some(host_port) => upserted(
                earlier,
                port_key(binding.internal_port),
                PortBindingView {
                    host_ip: binding.host_host,
                    host_port: decimal(host_port as nat),
                },
            ),
            None => earlier,
        }
    }
}

fn publish(published: &mut Vec<(String, PortBinding)>, key: String, binding: PortBinding)
    ensures
        final(published).deep_view() == upserted(old(published).deep_view(), key@, binding@),
{
    let mut i: usize = 0;
    while i < published.len()
        invariant
            i <= published.len(),
            *published == *old(published),
            forall|j: int| 0 <= j < i ==> (#[trigger] published.deep_view()[j]).0 != key@,
        decreases published.len() - i,
    {
        if published[i].0 == key {
            proof {
                lemma_upsert_at_first(published.deep_view(), key@, binding@, i as int);
            }
            published.set(i, (key, binding));
            assert(published.deep_view() =~= old(published).deep_view().update(
                i as int,
                (key@, binding@),
            ));
            return ;
        }
        i += 1;
    }
    assert(!has_name(published.deep_view(), key@));
    published.push((key, binding));
    assert(published.deep_view() =~= old(published).deep_view().push((key@, binding@)));
}

impl HostPortBinding {
    /// The binding of the port `internal_port` of the container
    /// `container_name` under `command`. `free_port` is a port that the
    /// host has free; it is used where the command exposes the service.
    pub fn new(
        container_name: &str,
        internal_port: u16,
        command: &Command,
        free_port: u16,
    ) -> (binding: Self)
        ensures
            binding@ == port_binding(container_name@, internal_port, *command, free_port),
    {
        let host_port = match command {
            Command::Dev { .. } | Command::Run { .. } => Some(free_port),
            _ => None,
        };
        let host_host = LOOPBACK;
        let inner_host = match command {
            Command::Dev { .. } => host_host,
            _ => container_name,
        };
        let inner_port = match (command, host_port) {
            (Command::Dev { .. }, Some(port)) => port,
            _ => internal_port,
        };
        Self {
            inner_port,
            inner_host: String::from_str(inner_host),
            host_port,
            host_host: String::from_str(host_host),
            internal_port,
        }
    }

    /// A binding with every side chosen by the caller. The port inside the
    /// container is the one the application uses.
    pub fn manual(host_port: u16, host_host: &str, inner_port: u16, inner_host: &str) -> (binding:
        Self)
        ensures
            binding@ == (HostPortBindingView {
                inner_port,
                inner_host: inner_host@,
                host_port: Some(host_port),
                host_host: host_host@,
                internal_port: inner_port,
            }),
    {
        Self {
            inner_port,
            inner_host: String::from_str(inner_host),
            host_port: Some(host_port),
            host_host: String::from_str(host_host),
            internal_port: inner_port,
        }
    }

    /// What the runtime is asked to publish for these bindings, in the
    /// order in which each port inside a container first occurs.
    pub fn to_port_bindings(bindings: &[&HostPortBinding]) -> (published: Vec<
        (String, PortBinding),
    >)
        ensures
            published.deep_view() == port_bindings(bindings.deep_view()),
    {
        let mut published: Vec<(String, PortBinding)> = Vec::new();
        let mut i: usize = 0;
        assert(published.deep_view() =~= port_bindings(bindings.deep_view().take(0)));
        while i < bindings.len()
            invariant
                i <= bindings.len(),
                published.deep_view() == port_bindings(bindings.deep_view().take(i as int)),
            decreases bindings.len() - i,
        {
            let binding = bindings[i];
            proof {
                let upto = bindings.deep_view().take(i + 1);
                assert(upto.drop_last() =~= bindings.deep_view().take(i as int));
                assert(upto.last() == binding@);
            }
            if let Some(host_port) = binding.host_port() {
                // only tcp is published
                let mut key = render_decimal(binding.internal_port());
                key.append("/tcp");
                let address = PortBinding {
                    host_ip: String::from_str(binding.host_host()),
                    host_port: render_decimal(host_port),
                };
                publish(&mut published, key, address);
            }
            i += 1;
        }
        assert(bindings.deep_view().take(bindings.len() as int) =~= bindings.deep_view());
        published
    }

    /// What the runtime is asked to publish for this binding alone.
    pub fn to_port_binding(&self) -> (published: Vec<(String, PortBinding)>)
        ensures
            published.deep_view() == port_bindings(seq![self@]),
    {
        let mut single: Vec<&HostPortBinding> = Vec::new();
        single.push(self);
        assert(single.deep_view() =~= seq![self@]);
        Self::to_port_bindings(single.as_slice())
    }

    /// The variables through which the application finds the service: the
    /// host and the port of the application's side of the binding, under
    /// names that begin with `prefix`.
    pub fn connection_vars(&self, prefix: &str) -> (vars: Vec<(String, String)>)
        ensures
            vars.deep_view() == connection_vars(prefix@, self@),
    {
        let mut host_name = String::from_str(prefix);
        host_name.append("_HOST");
        let mut port_name = String::from_str(prefix);
        port_name.append("_PORT");
        let mut vars: Vec<(String, String)> = Vec::new();
        vars.push((host_name, self.inner_host.clone()));
        vars.push((port_name, render_decimal(self.inner_port)));
        assert(vars.deep_view() =~= connection_vars(prefix@, self@));
        vars
    }

    /// The address at which the operator's machine reaches the service, or
    /// `None` where the service is not exposed.
    pub fn connection_info(&self) -> (address: Option<(String, u16)>)
        ensures
            address is Some == self@.host_port is Some,
            address matches Some(a) ==> a.0@ == self@.host_host && Some(a.1) == self@.host_port,
    {
        match self.host_port {
            Some(port) => Some((self.host_host.clone(), port)),
            None => None,
        }
    }

    pub fn inner_port(&self) -> (port: u16)
        ensures
            port == self@.inner_port,
    {
        self.inner_port
    }

    pub fn inner_host(&self) -> (host: &str)
        ensures
            host@ == self@.inner_host,
    {
        self.inner_host.as_str()
    }

    pub fn host_port(&self) -> (port: Option<u16>)
        ensures
            port == self@.host_port,
    {
        self.host_port
    }

    pub fn host_host(&self) -> (host: &str)
        ensures
            host@ == self@.host_host,
    {
        self.host_host.as_str()
    }

    pub fn internal_port(&self) -> (port: u16)
        ensures
            port == self@.internal_port,
    {
        self.internal_port
    }
}

/// How to reach the remote host of a deployment.
#[derive(Debug, Clone)]
pub struct SshCredentials {
    host: String,
    port: u16,
    username: String,
    keyfile: Option<String>,
}

pub struct SshCredentialsView {
    pub host: Seq<char>,
    pub port: u16,
    pub username: Seq<char>,
    pub keyfile: Option<Seq<char>>,
}

impl View for SshCredentials {
    type V = SshCredentialsView;

    closed spec fn view(&self) -> SshCredentialsView {
        SshCredentialsView {
            host: self.host@,
            port: self.port,
            username: self.username@,
            keyfile: match self.keyfile {
                Some(path) => Some(path@),
                None => None,
            },
        }
    }
}

impl SshCredentials {
    pub fn new(host: String, port: u16, username: String, keyfile: Option<String>) -> (credentials:
        Self)
        ensures
            credentials@ == (SshCredentialsView {
                host: host@,
                port,
                username: username@,
                keyfile: match keyfile {
                    Some(path) => Some(path@),
                    None => None,
                },
            }),
    {
        Self { host, port, username, keyfile }
    }

    pub fn host(&self) -> (host: &str)
        ensures
            host@ == self@.host,
    {
        self.host.as_str()
    }

    pub fn port(&self) -> (port: u16)
        ensures
            port == self@.port,
    {
        self.port
    }

    pub fn username(&self) -> (username: &str)
        ensures
            username@ == self@.username,
    {
        self.username.as_str()
    }

    pub fn keyfile(&self) -> (keyfile: Option<&str>)
        ensures
            keyfile is Some == self@.keyfile is Some,
            keyfile matches Some(path) ==> path@ == self@.keyfile->0,
    {
        match &self.keyfile {
            Some(path) => Some(path.as_str()),
            None => None,
        }
    }
}

/// Two contexts that agree on the namespace and on the application's name
/// give every kind of service the same container name: the name depends on
/// nothing else, neither on the rest of the configuration nor on when it
/// is asked for.
pub proof fn lemma_container_name_is_determined(
    one: &Context,
    other: &Context,
    service_kind: ServiceKind,
)
    requires
        one.spec_namespace() == other.spec_namespace(),
        one.spec_app_name() == other.spec_app_name(),
    ensures
        one.spec_container_name_of(service_kind) == other.spec_container_name_of(service_kind),
{
}

/// A kind bound to the host's network has one container name in all
/// namespaces, and that name ends in the default namespace.
pub proof fn lemma_host_bound_name_ignores_namespace(
    namespace: Seq<char>,
    other_namespace: Seq<char>,
    app_name: Seq<char>,
    service_kind: ServiceKind,
)
    requires
        service_kind.spec_binds_host_network(),
    ensures
        container_name(namespace, app_name, service_kind) == container_name(
            other_namespace,
            app_name,
            service_kind,
        ),
        ({
            let name = container_name(namespace, app_name, service_kind);
            let tail = seq!['_'] + DEFAULT_NAMESPACE@;
            &&& name.len() >= tail.len()
            &&& name.subrange(name.len() - tail.len(), name.len() as int) == tail
        }),
{
    let name = container_name(namespace, app_name, service_kind);
    let tail = seq!['_'] + DEFAULT_NAMESPACE@;
    assert(name.subrange(name.len() - tail.len(), name.len() as int) =~= tail);
}

/// A singleton's container name is the same for every application, and
/// the container name of any other kind begins with the application's name.
pub proof fn lemma_name_is_rooted(
    namespace: Seq<char>,
    app_name: Seq<char>,
    other_app_name: Seq<char>,
    service_kind: ServiceKind,
)
    ensures
        service_kind.spec_is_singleton() ==> container_name(namespace, app_name, service_kind)
            == container_name(namespace, other_app_name, service_kind),
        !service_kind.spec_is_singleton() ==> ({
            let name = container_name(namespace, app_name, service_kind);
            &&& name.len() > app_name.len()
            &&& name.subrange(0, app_name.len() as int) == app_name
            &&& name[app_name.len() as int] == '_'
        }),
{
    if !service_kind.spec_is_singleton() {
        let name = container_name(namespace, app_name, service_kind);
        assert(name.subrange(0, app_name.len() as int) =~= app_name);
    }
}

/// A volume's directory lies under the tool's volume root, in the directory
/// named after the container, and its own name holds no path separator.
pub proof fn lemma_volume_path_stays_under_root(container_name: Seq<char>, inner_path: Seq<char>)
    ensures
        ({
            let root = DPLOY_DIR@ + "/volumes/"@ + container_name + seq!['/'];
            let path = volume_path(container_name, inner_path);
            &&& path.len() >= root.len()
            &&& path.subrange(0, root.len() as int) == root
            &&& forall|i: int|
                root.len() <= i < path.len() ==> !crate::text::is_separator(#[trigger] path[i])
        }),
{
    let root = DPLOY_DIR@ + "/volumes/"@ + container_name + seq!['/'];
    let path = volume_path(container_name, inner_path);
    crate::text::lemma_escaped_has_no_separator(inner_path);
    assert(path.subrange(0, root.len() as int) =~= root);
    assert forall|i: int| root.len() <= i < path.len() implies !crate::text::is_separator(
        #[trigger] path[i],
    ) by {
        assert(path[i] == escaped(inner_path)[i - root.len()]);
    }
}

/// No key occurs twice in what a list of bindings publishes.
pub proof fn lemma_published_keys_are_distinct(bindings: Seq<HostPortBindingView>)
    ensures
        distinct_names(port_bindings(bindings)),
    decreases bindings.len(),
{
    if bindings.len() > 0 {
        lemma_published_keys_are_distinct(bindings.drop_last());
        let binding = bindings.last();
        if let Some(host_port) = binding.host_port {
            crate::pairs::lemma_upsert_keeps_names_distinct(
                port_bindings(bindings.drop_last()),
                port_key(binding.internal_port),
                PortBindingView {
                    host_ip: binding.host_host,
                    host_port: decimal(host_port as nat),
                },
            );
        }
    }
}

/// A binding without a host port publishes nothing, and one with a host
/// port publishes the port inside the container at that host port.
pub proof fn lemma_last_binding_decides(
    bindings: Seq<HostPortBindingView>,
    binding: HostPortBindingView,
)
    ensures
        binding.host_port is None ==> port_bindings(bindings.push(binding)) == port_bindings(
            bindings,
        ),
        binding.host_port matches Some(host_port) ==> crate::pairs::value_of(
            port_bindings(bindings.push(binding)),
            port_key(binding.internal_port),
        ) == Some(
            PortBindingView { host_ip: binding.host_host, host_port: decimal(host_port as nat) },
        ),
{
    assert(bindings.push(binding).drop_last() =~= bindings);
    if let Some(host_port) = binding.host_port {
        lemma_published_keys_are_distinct(bindings);
        crate::pairs::lemma_upsert_keeps_names_distinct(
            port_bindings(bindings),
            port_key(binding.internal_port),
            PortBindingView { host_ip: binding.host_host, host_port: decimal(host_port as nat) },
        );
    }
}

} // verus!
