use vstd::prelude::*;

verus! {

/// The command kinds an override rule can be keyed by.
#[derive(Clone, Copy, Debug, PartialEq, Eq, Structural)]
pub enum OverrideRuleCommand {
    Deploy,
    Run,
    Dev,
}

/// What one command kind changes in the application's configuration. A field
/// left at `None` keeps the configured value.
#[derive(Clone, Debug)]
pub struct OverrideRule {
    pub name: Option<String>,
    pub dockerfile: Option<String>,
    pub env_file: Option<String>,
    pub env: Option<Vec<String>>,
    pub watch: Option<Vec<String>>,
}

impl OverrideRule {
    /// Whether the rule leaves every value as configured.
    pub open spec fn is_blank(&self) -> bool {
        &&& self.name is None
        &&& self.dockerfile is None
        &&& self.env_file is None
        &&& self.env is None
        &&& self.watch is None
    }

    /// The rule that changes nothing.
    pub fn none() -> (rule: OverrideRule)
        ensures
            rule.is_blank(),
    {
        OverrideRule { name: None, dockerfile: None, env_file: None, env: None, watch: None }
    }
}

/// The override rules of one invocation, keyed by command kind, together
/// with the kind of the command that is running.
#[derive(Clone, Debug)]
pub struct OverrideContext {
    pub command: OverrideRuleCommand,
    pub deploy: OverrideRule,
    pub run: OverrideRule,
    pub dev: OverrideRule,
}

impl OverrideContext {
    /// A context for `command` in which no rule changes anything.
    pub fn new(command: OverrideRuleCommand) -> (context: OverrideContext)
        ensures
            context.command == command,
            context.deploy.is_blank(),
            context.run.is_blank(),
            context.dev.is_blank(),
    {
        OverrideContext {
            command,
            deploy: OverrideRule::none(),
            run: OverrideRule::none(),
            dev: OverrideRule::none(),
        }
    }

    pub open spec fn active_rule(&self) -> OverrideRule {
        match self.command {
            OverrideRuleCommand::Deploy => self.deploy,
            OverrideRuleCommand::Run => self.run,
            OverrideRuleCommand::Dev => self.dev,
        }
    }

    /// The rule keyed by the running command's kind.
    pub fn rule(&self) -> (rule: &OverrideRule)
        ensures
            *rule == self.active_rule(),
    {
        match self.command {
            OverrideRuleCommand::Deploy => &self.deploy,
            OverrideRuleCommand::Run => &self.run,
            OverrideRuleCommand::Dev => &self.dev,
        }
    }
}

/// The application's configuration as written by its author. Every getter
/// takes the override context and answers with the value that holds for the
/// running command.
#[derive(Clone, Debug)]
pub struct AppConfig {
    pub name: String,
    pub dockerfile: String,
    pub env_file: String,
    pub env: Vec<String>,
    pub watch: Vec<String>,
}

impl AppConfig {
    pub open spec fn spec_name(&self, context: &OverrideContext) -> Seq<char> {
        match context.active_rule().name {
            Some(name) => name@,
            None => self.name@,
        }
    }

    /// The application's name.
    pub fn name<'a>(&'a self, context: &'a OverrideContext) -> (name: &'a str)
        ensures
            name@ == self.spec_name(context),
    {
        match &context.rule().name {
            Some(name) => name.as_str(),
            None => self.name.as_str(),
        }
    }

    pub open spec fn spec_dockerfile(&self, context: &OverrideContext) -> Seq<char> {
        match context.active_rule().dockerfile {
            Some(dockerfile) => dockerfile@,
            None => self.dockerfile@,
        }
    }

    /// Path of the file the application's image is built from.
    pub fn dockerfile<'a>(&'a self, context: &'a OverrideContext) -> (dockerfile: &'a str)
        ensures
            dockerfile@ == self.spec_dockerfile(context),
    {
        match &context.rule().dockerfile {
            Some(dockerfile) => dockerfile.as_str(),
            None => self.dockerfile.as_str(),
        }
    }

    pub open spec fn spec_env_file(&self, context: &OverrideContext) -> Seq<char> {
        match context.active_rule().env_file {
            Some(env_file) => env_file@,
            None => self.env_file@,
        }
    }

    /// Path of the environment file.
    pub fn env_file<'a>(&'a self, context: &'a OverrideContext) -> (env_file: &'a str)
        ensures
            env_file@ == self.spec_env_file(context),
    {
        match &context.rule().env_file {
            Some(env_file) => env_file.as_str(),
            None => self.env_file.as_str(),
        }
    }

    pub open spec fn spec_env(&self, context: &OverrideContext) -> Seq<Seq<char>> {
        match context.active_rule().env {
            Some(env) => env.deep_view(),
            None => self.env.deep_view(),
        }
    }

    /// Names of the variables the application declares as its own.
    pub fn env<'a>(&'a self, context: &'a OverrideContext) -> (env: &'a Vec<String>)
        ensures
            env.deep_view() == self.spec_env(context),
    {
        match &context.rule().env {
            Some(env) => env,
            None => &self.env,
        }
    }

    pub open spec fn spec_watch(&self, context: &OverrideContext) -> Seq<Seq<char>> {
        match context.active_rule().watch {
            Some(watch) => watch.deep_view(),
            None => self.watch.deep_view(),
        }
    }

    /// Paths that a watching session observes for changes.
    pub fn watch<'a>(&'a self, context: &'a OverrideContext) -> (watch: &'a Vec<String>)
        ensures
            watch.deep_view() == self.spec_watch(context),
    {
        match &context.rule().watch {
            Some(watch) => watch,
            None => &self.watch,
        }
    }
}

} // verus!
