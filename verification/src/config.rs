//! Settings: where a run publishes to, and the text that explains how to say so.

use crate::target::Consul;
use crate::target::ConsulView;
use crate::text::join3;
use vstd::prelude::*;
use vstd::string::StringExecFns;

verus! {

/// Why no store target could be made of the settings.
#[derive(Debug, PartialEq, Eq, Clone, Copy)]
pub enum ConfigError {
    /// No access token was given, and there is no default for it.
    MissingToken,
}

/// The namespace that keys are put under where none is given.
pub open spec fn default_kv_prefix() -> Seq<char> {
    "salt-shared"@
}

/// The base URL of the store where none is given.
pub open spec fn default_host() -> Seq<char> {
    "http://127.0.0.1:8500"@
}

/// A setting, or its default where it is not given.
pub open spec fn setting_or(setting: Option<String>, default: Seq<char>) -> Seq<char> {
    match setting {
        Some(value) => value@,
        None => default,
    }
}

/// The store target that the three settings describe.
///
/// The namespace and the base URL have defaults; the access token has none,
/// and without it there is no target.
pub fn get_consul_info(
    kv_prefix: Option<String>,
    host: Option<String>,
    token: Option<String>,
) -> (r: Result<Consul, ConfigError>)
    ensures
        match token {
            Some(token) => r matches Ok(consul) && consul@ == (ConsulView {
                kv_prefix: setting_or(kv_prefix, default_kv_prefix()),
                host: setting_or(host, default_host()),
                token: token@,
            }),
            None => r == Err::<Consul, ConfigError>(ConfigError::MissingToken),
        },
{
    let consul_kv_prefix = match kv_prefix {
        Some(prefix) => prefix,
        None => "salt-shared".to_owned(),
    };
    let consul_host = match host {
        Some(host) => host,
        None => "http://127.0.0.1:8500".to_owned(),
    };
    match token {
        Some(consul_token) => Ok(
            Consul { kv_prefix: consul_kv_prefix, host: consul_host, token: consul_token },
        ),
        None => Err(ConfigError::MissingToken),
    }
}

/// The usage text for a program of the given name, line by line.
pub open spec fn usage(prog_name: Seq<char>) -> Seq<char> {
    "Usage: CONSUL_TOKEN=$consul_token CONSUL_KV_PREFIX='salt-shared' CONSUL_HOST=$consul_http_host "@
        + prog_name + " /path/to/saltstack-pillar.json\n"@
        + "CONSUL_KV_PREFIX default to salt-shared\n"@
        + "CONSUL_host default to http://127.0.0.1:8500"@
}

/// The usage text: how to call the program, and the defaults of the settings.
pub fn usage_text(prog_name: &str) -> (text: String)
    ensures
        text@ == usage(prog_name@),
{
    let mut text = join3(
        "Usage: CONSUL_TOKEN=$consul_token CONSUL_KV_PREFIX='salt-shared' CONSUL_HOST=$consul_http_host ",
        prog_name,
        " /path/to/saltstack-pillar.json\n",
    );
    text.append("CONSUL_KV_PREFIX default to salt-shared\n");
    text.append("CONSUL_host default to http://127.0.0.1:8500");
    text
}

/// What a run says of its target before it starts.
pub open spec fn summary(target: ConsulView) -> Seq<char> {
    "consul info\nhost: "@ + target.host + "\nkv_prefix: "@ + target.kv_prefix
}

/// What a run says of its target before it starts: the base URL and the
/// namespace, never the token.
pub fn summary_text(target: &Consul) -> (text: String)
    ensures
        text@ == summary(target@),
{
    let mut text = join3("consul info\nhost: ", target.host.as_str(), "\nkv_prefix: ");
    text.append(target.kv_prefix.as_str());
    text
}

} // verus!
