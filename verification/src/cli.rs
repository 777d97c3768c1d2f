use vstd::prelude::*;
use vstd::std_specs::convert::FromSpecImpl;

use crate::config::OverrideRuleCommand;
use crate::services::ServiceKind;

verus! {

/// The parsed command line.
#[derive(Debug)]
pub struct Args {
    /// Relative path to the config file
    pub config: String,
    /// Namespace (or postfix) to use
    pub namespace: String,
    pub command: Command,
}

impl Args {
    pub fn config(&self) -> (config: &str)
        ensures
            config@ == self.config@,
    {
        self.config.as_str()
    }

    pub fn namespace(&self) -> (namespace: &str)
        ensures
            namespace@ == self.namespace@,
    {
        self.namespace.as_str()
    }

    pub fn command(&self) -> (command: &Command)
        ensures
            *command == self.command,
    {
        &self.command
    }
}

#[derive(Debug)]
#[allow(inconsistent_fields)]
pub enum Command {
    /// Deploy the application with all its dependencies to a remote server
    Deploy {
        /// Host of the remote server
        host: String,
        /// Port of the remote server
        port: u16,
        /// Username of the remote server
        username: String,
        /// Path to the private key file
        keyfile: Option<String>,
        /// Run without any subcommand to start the application
        command: Option<DeployCommand>,
        /// Watch for file changes and restart the application
        watch: bool,
    },
    /// Run the application with all its dependencies locally
    Run {
        /// Run without any subcommand to start the application
        command: Option<RunCommand>,
        /// Watch for file changes and restart the application
        watch: bool,
    },
    /// Run only the dependencies of the application locally
    Dev {
        /// Run without any subcommand to start the application
        command: Option<DevCommand>,
    },
}

impl From<&Command> for OverrideRuleCommand {
    fn from(value: &Command) -> (kind: Self) {
        match value {
            Command::Deploy { .. } => OverrideRuleCommand::Deploy,
            Command::Run { .. } => OverrideRuleCommand::Run,
            Command::Dev { .. } => OverrideRuleCommand::Dev,
        }
    }
}

impl FromSpecImpl<&Command> for OverrideRuleCommand {
    open spec fn obeys_from_spec() -> bool {
        true
    }

    open spec fn from_spec(value: &Command) -> Self {
        match value {
            Command::Deploy { .. } => OverrideRuleCommand::Deploy,
            Command::Run { .. } => OverrideRuleCommand::Run,
            Command::Dev { .. } => OverrideRuleCommand::Dev,
        }
    }
}

#[derive(Debug)]
pub enum DevCommand {
    /// Stop the application
    Stop,
    /// Get logs of the specified service
    Logs {
        /// Number of logs to get. Omit to get 20 last logs + follow real time logs
        tail: Option<u64>,
        /// Service to get logs from
        service: DevLogsService,
    },
    /// Execute a command in the application container
    Exec {
        /// Command to execute
        command: String,
        /// Service to get logs from
        service: DevLogsService,
    },
}

#[derive(Clone, Copy, Debug, PartialEq, Eq, Structural)]
pub enum DevLogsService {
    Postgres,
}

impl From<DevLogsService> for ServiceKind {
    fn from(value: DevLogsService) -> (kind: Self) {
        match value {
            DevLogsService::Postgres => ServiceKind::Postgres,
        }
    }
}

impl FromSpecImpl<DevLogsService> for ServiceKind {
    open spec fn obeys_from_spec() -> bool {
        true
    }

    open spec fn from_spec(value: DevLogsService) -> Self {
        match value {
            DevLogsService::Postgres => ServiceKind::Postgres,
        }
    }
}

#[derive(Debug)]
pub enum RunCommand {
    /// Stop the application
    Stop,
    /// Get logs of application container
    Logs {
        /// Number of logs to get. Omit to get 20 last logs + follow real time logs
        tail: Option<u64>,
        /// Service to get logs from
        service: RunLogsService,
    },
    /// Execute a command in the application container
    Exec {
        /// Command to execute
        command: String,
        /// Service to get logs from
        service: RunLogsService,
    },
}

#[derive(Clone, Copy, Debug, PartialEq, Eq, Structural)]
pub enum RunLogsService {
    App,
    Postgres,
}

impl From<RunLogsService> for ServiceKind {
    fn from(value: RunLogsService) -> (kind: Self) {
        match value {
            RunLogsService::App => ServiceKind::App,
            RunLogsService::Postgres => ServiceKind::Postgres,
        }
    }
}

impl FromSpecImpl<RunLogsService> for ServiceKind {
    open spec fn obeys_from_spec() -> bool {
        true
    }

    open spec fn from_spec(value: RunLogsService) -> Self {
        match value {
            RunLogsService::App => ServiceKind::App,
            RunLogsService::Postgres => ServiceKind::Postgres,
        }
    }
}

#[derive(Debug)]
pub enum DeployCommand {
    /// Stop the application
    Stop,
    /// Get logs of application container
    Logs {
        /// Number of logs to get. Omit to get 20 last logs + follow realtime logs
        tail: Option<u64>,
        /// Service to get logs from
        service: DeployLogsService,
    },
    /// Execute a command in the application container
    Exec {
        /// Command to execute
        command: String,
        /// Service to get logs from
        service: DeployLogsService,
    },
}

#[derive(Clone, Copy, Debug, PartialEq, Eq, Structural)]
pub enum DeployLogsService {
    App,
    Postgres,
    Proxy,
}

impl From<DeployLogsService> for ServiceKind {
    fn from(value: DeployLogsService) -> (kind: Self) {
        match value {
            DeployLogsService::App => ServiceKind::App,
            DeployLogsService::Postgres => ServiceKind::Postgres,
            DeployLogsService::Proxy => ServiceKind::Proxy,
        }
    }
}

impl FromSpecImpl<DeployLogsService> for ServiceKind {
    open spec fn obeys_from_spec() -> bool {
        true
    }

    open spec fn from_spec(value: DeployLogsService) -> Self {
        match value {
            DeployLogsService::App => ServiceKind::App,
            DeployLogsService::Postgres => ServiceKind::Postgres,
            DeployLogsService::Proxy => ServiceKind::Proxy,
        }
    }
}

impl Command {
    /// Whether the sub-operation asks to stop the instance.
    pub open spec fn spec_stop(&self) -> bool {
        match self {
            Command::Deploy { command, .. } => *command == Some(DeployCommand::Stop),
            Command::Run { command, .. } => *command == Some(RunCommand::Stop),
            Command::Dev { command, .. } => *command == Some(DevCommand::Stop),
        }
    }

    #[verifier::when_used_as_spec(spec_stop)]
    pub fn stop(&self) -> (stop: bool)
        ensures
            stop == self.spec_stop(),
    {
        match self {
            Command::Deploy { command, .. } => matches!(command, Some(DeployCommand::Stop)),
            Command::Run { command, .. } => matches!(command, Some(RunCommand::Stop)),
            Command::Dev { command, .. } => matches!(command, Some(DevCommand::Stop)),
        }
    }

    /// Whether a watching session was asked for. Only a local full-stack run
    /// can watch; on the other commands the flag means nothing.
    pub open spec fn spec_watch(&self) -> bool {
        match self {
            Command::Run { watch, .. } => *watch,
            _ => false,
        }
    }

    #[verifier::when_used_as_spec(spec_watch)]
    pub fn watch(&self) -> (watch: bool)
        ensures
            watch == self.spec_watch(),
    {
        match self {
            Command::Run { watch, .. } => *watch,
            _ => false,
        }
    }
}

} // verus!
