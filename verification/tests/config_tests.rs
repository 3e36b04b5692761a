use pillar_consul::config::get_consul_info;
use pillar_consul::config::summary_text;
use pillar_consul::config::usage_text;
use pillar_consul::config::ConfigError;
use pillar_consul::target::Consul;

#[test]
fn settings_default_to_the_local_store() {
    let consul = get_consul_info(None, None, Some("secret".to_string())).unwrap();
    assert_eq!(
        consul,
        Consul {
            kv_prefix: "salt-shared".to_string(),
            host: "http://127.0.0.1:8500".to_string(),
            token: "secret".to_string(),
        }
    );
}

#[test]
fn given_settings_are_taken_as_they_are() {
    let consul = get_consul_info(
        Some("other".to_string()),
        Some("https://consul.example:8501".to_string()),
        Some("t".to_string()),
    )
    .unwrap();
    assert_eq!(consul.kv_prefix, "other");
    assert_eq!(consul.host, "https://consul.example:8501");
    assert_eq!(consul.token, "t");

    let consul = get_consul_info(Some(String::new()), None, Some(String::new())).unwrap();
    assert_eq!(consul.kv_prefix, "");
    assert_eq!(consul.host, "http://127.0.0.1:8500");
    assert_eq!(consul.token, "");
}

#[test]
fn missing_token_is_an_error() {
    assert_eq!(get_consul_info(None, None, None), Err(ConfigError::MissingToken));
    assert_eq!(
        get_consul_info(Some("p".to_string()), Some("h".to_string()), None),
        Err(ConfigError::MissingToken)
    );
}

#[test]
fn usage_names_the_program_and_the_defaults() {
    assert_eq!(
        usage_text("pillar2consul"),
        "Usage: CONSUL_TOKEN=$consul_token CONSUL_KV_PREFIX='salt-shared' \
         CONSUL_HOST=$consul_http_host pillar2consul /path/to/saltstack-pillar.json\n\
         CONSUL_KV_PREFIX default to salt-shared\n\
         CONSUL_host default to http://127.0.0.1:8500"
    );
}

#[test]
fn summary_shows_host_and_namespace_but_not_the_token() {
    let consul = Consul {
        kv_prefix: "salt-shared".to_string(),
        host: "http://127.0.0.1:8500".to_string(),
        token: "secret".to_string(),
    };
    assert_eq!(
        summary_text(&consul),
        "consul info\nhost: http://127.0.0.1:8500\nkv_prefix: salt-shared"
    );
}
