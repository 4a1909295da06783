//! The settings of the sandbox, their environment variables and defaults.

use vstd::prelude::*;
use vstd::string::*;
use crate::configurable::{
    resolved_bool, resolved_text, resolved_u64, supplied_text, ConfigurableItem, ConfigurableValue,
};
use crate::container::ContainerSettings;
use crate::words::is_plain_word;

verus! {

pub open spec fn default_image() -> Seq<char> {
    "ghcr.io/theconner/rustbot-runner:latest"@
}

pub open spec fn default_cpu() -> Seq<char> {
    "0.5"@
}

pub open spec fn default_memory() -> Seq<char> {
    "100m"@
}

pub open spec fn default_swap() -> Seq<char> {
    "5m"@
}

pub open spec fn default_network() -> Seq<char> {
    "none"@
}

pub const DEFAULT_MAX_RUNTIME: u64 = 5000;

pub const DEFAULT_PIDS: u64 = 64;

/// The container image to pull and run.
pub fn container_image() -> (item: ConfigurableItem<&'static str>)
    ensures
        item.environment_variable@ == "CONTAINER_IMAGE"@,
        item.default_value@ == default_image(),
{
    ConfigurableItem {
        environment_variable: "CONTAINER_IMAGE",
        default_value: "ghcr.io/theconner/rustbot-runner:latest",
    }
}

/// The number of virtual CPUs available to the container.
pub fn container_cpu() -> (item: ConfigurableItem<&'static str>)
    ensures
        item.environment_variable@ == "CONTAINER_CPU"@,
        item.default_value@ == default_cpu(),
{
    ConfigurableItem { environment_variable: "CONTAINER_CPU", default_value: "0.5" }
}

/// The amount of memory available to the container.
pub fn container_memory() -> (item: ConfigurableItem<&'static str>)
    ensures
        item.environment_variable@ == "CONTAINER_MEMORY"@,
        item.default_value@ == default_memory(),
{
    ConfigurableItem { environment_variable: "CONTAINER_MEMORY", default_value: "100m" }
}

/// The amount of swap usable by the container.
pub fn container_swap() -> (item: ConfigurableItem<&'static str>)
    ensures
        item.environment_variable@ == "CONTAINER_SWAP"@,
        item.default_value@ == default_swap(),
{
    ConfigurableItem { environment_variable: "CONTAINER_SWAP", default_value: "5m" }
}

/// How long a container may run, in milliseconds.
pub fn container_max_runtime() -> (item: ConfigurableItem<u64>)
    ensures
        item.environment_variable@ == "CONTAINER_MAX_RUNTIME"@,
        item.default_value == DEFAULT_MAX_RUNTIME,
{
    ConfigurableItem { environment_variable: "CONTAINER_MAX_RUNTIME", default_value: 5000 }
}

/// Whether this process itself runs in a container: `true` or `false`.
pub fn is_running_in_container() -> (item: ConfigurableItem<bool>)
    ensures
        item.environment_variable@ == "IS_RUNNING_IN_CONTAINER"@,
        item.default_value == false,
{
    ConfigurableItem { environment_variable: "IS_RUNNING_IN_CONTAINER", default_value: false }
}

/// The network mode of the container.
pub fn container_network() -> (item: ConfigurableItem<&'static str>)
    ensures
        item.environment_variable@ == "CONTAINER_NETWORK"@,
        item.default_value@ == default_network(),
{
    ConfigurableItem { environment_variable: "CONTAINER_NETWORK", default_value: "none" }
}

/// The number of process identifiers available to the container.
pub fn container_pids() -> (item: ConfigurableItem<u64>)
    ensures
        item.environment_variable@ == "MAX_PIDS"@,
        item.default_value == DEFAULT_PIDS,
{
    ConfigurableItem { environment_variable: "MAX_PIDS", default_value: 64 }
}

/// What the environment holds under the name of each setting; `None` for
/// a variable that is not set.
pub struct Environment {
    pub container_image: Option<String>,
    pub container_cpu: Option<String>,
    pub container_memory: Option<String>,
    pub container_swap: Option<String>,
    pub container_max_runtime: Option<String>,
    pub is_running_in_container: Option<String>,
    pub container_network: Option<String>,
    pub max_pids: Option<String>,
}

/// What an optional string holds, as a sequence of characters.
pub open spec fn held(variable: Option<String>) -> Option<Seq<char>> {
    match variable {
        Some(text) => Some(text@),
        None => None,
    }
}

fn borrowed(variable: &Option<String>) -> (text: Option<&str>)
    ensures
        supplied_text(text) == held(*variable),
{
    match variable {
        Some(text) => Some(text.as_str()),
        None => None,
    }
}

impl Environment {
    /// An environment that sets none of the variables.
    pub fn empty() -> (environment: Environment)
        ensures
            environment.is_empty(),
    {
        Environment {
            container_image: None,
            container_cpu: None,
            container_memory: None,
            container_swap: None,
            container_max_runtime: None,
            is_running_in_container: None,
            container_network: None,
            max_pids: None,
        }
    }

    pub open spec fn is_empty(&self) -> bool {
        &&& self.container_image is None
        &&& self.container_cpu is None
        &&& self.container_memory is None
        &&& self.container_swap is None
        &&& self.container_max_runtime is None
        &&& self.is_running_in_container is None
        &&& self.container_network is None
        &&& self.max_pids is None
    }

    /// The profile that this environment resolves to: `settings` holds,
    /// field by field, the override or the default.
    pub open spec fn resolves_to(&self, settings: ContainerSettings) -> bool {
        &&& settings.cpu@ == resolved_text(held(self.container_cpu), default_cpu())
        &&& settings.image@ == resolved_text(held(self.container_image), default_image())
        &&& settings.memory@ == resolved_text(held(self.container_memory), default_memory())
        &&& settings.swap@ == resolved_text(held(self.container_swap), default_swap())
        &&& settings.max_runtime == resolved_u64(
            held(self.container_max_runtime),
            DEFAULT_MAX_RUNTIME,
        )
        &&& settings.network@ == resolved_text(held(self.container_network), default_network())
        &&& settings.pid_limit == resolved_u64(held(self.max_pids), DEFAULT_PIDS)
        &&& settings.running_in_container == resolved_bool(
            held(self.is_running_in_container),
            false,
        )
    }
}

/// The sandbox profile under the given environment.
pub fn get_container_settings(environment: &Environment) -> (settings: ContainerSettings)
    ensures
        environment.resolves_to(settings),
{
    ContainerSettings {
        cpu: container_cpu().value(borrowed(&environment.container_cpu)),
        image: container_image().value(borrowed(&environment.container_image)),
        memory: container_memory().value(borrowed(&environment.container_memory)),
        swap: container_swap().value(borrowed(&environment.container_swap)),
        max_runtime: container_max_runtime().value(borrowed(&environment.container_max_runtime)),
        network: container_network().value(borrowed(&environment.container_network)),
        pid_limit: container_pids().value(borrowed(&environment.max_pids)),
        running_in_container: is_running_in_container().value(
            borrowed(&environment.is_running_in_container),
        ),
    }
}

/// With nothing overridden the profile is well formed.
pub proof fn lemma_defaults_well_formed(environment: Environment, settings: ContainerSettings)
    requires
        environment.is_empty(),
        environment.resolves_to(settings),
    ensures
        settings.wf(),
        !settings.running_in_container,
{
    reveal_strlit("ghcr.io/theconner/rustbot-runner:latest");
    reveal_strlit("0.5");
    reveal_strlit("100m");
    reveal_strlit("5m");
    reveal_strlit("none");
    assert(is_plain_word(default_image()));
    assert(is_plain_word(default_cpu()));
    assert(is_plain_word(default_memory()));
    assert(is_plain_word(default_swap()));
    assert(is_plain_word(default_network()));
}

} // verus!
