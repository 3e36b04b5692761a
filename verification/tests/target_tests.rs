use pillar_consul::json::Json;
use pillar_consul::text::join3;
use pillar_consul::target::Consul;
use pillar_consul::target::PutRequest;
use pillar_consul::target::TOKEN_HEADER;

fn target() -> Consul {
    Consul {
        kv_prefix: "salt-shared".to_string(),
        host: "http://127.0.0.1:8500".to_string(),
        token: "secret".to_string(),
    }
}

#[test]
fn request_is_built_from_namespace_host_and_key() {
    let request = target().put_request("a/b", "1".to_string());
    assert_eq!(
        request,
        PutRequest {
            key: "salt-shared/a/b".to_string(),
            uri: "http://127.0.0.1:8500/v1/kv/salt-shared/a/b".to_string(),
            body: "1".to_string(),
            token: "secret".to_string(),
        }
    );
}

#[test]
fn leading_separator_of_a_root_leaf_is_kept_in_the_address() {
    let request = target().put_request("/x", "5".to_string());
    assert_eq!(request.key, "salt-shared//x");
    assert_eq!(request.uri, "http://127.0.0.1:8500/v1/kv/salt-shared//x");
}

#[test]
fn body_is_the_json_text_of_the_value() {
    let consul = target();
    assert_eq!(consul.store_kv("k", &Json::Bool(true)).body, "true");
    assert_eq!(consul.store_kv("k", &Json::String("true".to_string())).body, "\"true\"");
    assert_eq!(consul.store_kv("k", &Json::Number("1".to_string())).body, "1");
    assert_eq!(consul.store_kv("k", &Json::Null).body, "null");
    assert_eq!(
        consul
            .store_kv("k", &Json::Array(vec![Json::Number("1".to_string()), Json::Bool(false)]))
            .body,
        "[1,false]"
    );
}

#[test]
fn store_kv_addresses_the_write_like_put_request() {
    let consul = target();
    let request = consul.store_kv("a/b/c", &Json::String("v".to_string()));
    assert_eq!(request, consul.put_request("a/b/c", "\"v\"".to_string()));
    assert_eq!(request.token, "secret");
}

#[test]
fn empty_namespace_and_key_still_give_the_separators() {
    let consul = Consul { kv_prefix: String::new(), host: String::new(), token: String::new() };
    let request = consul.put_request("", String::new());
    assert_eq!(request.key, "/");
    assert_eq!(request.uri, "/v1/kv//");
    assert_eq!(request.body, "");
}

#[test]
fn token_travels_in_the_consul_header() {
    assert_eq!(TOKEN_HEADER, "x-consul-token");
}

#[test]
fn join3_puts_the_texts_one_after_the_other() {
    assert_eq!(join3("a", "/", "b"), "a/b");
    assert_eq!(join3("", "", ""), "");
    assert_eq!(join3("x", "", "y"), "xy");
}

#[test]
fn body_of_a_float_is_its_literal() {
    let consul = target();
    assert_eq!(
        consul.store_kv("k", &Json::Number("1.0000000000000007".to_string())).body,
        "1.0000000000000007"
    );
    assert_eq!(
        consul.store_kv("k", &Json::Number("0.30000000000000004".to_string())).body,
        "0.30000000000000004"
    );
}
