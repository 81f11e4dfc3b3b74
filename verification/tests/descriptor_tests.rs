use add_channel::descriptor::{ChannelDescriptor, ModelIdentity, build_channel_payload, build_descriptor};

fn identity() -> ModelIdentity {
    ModelIdentity {
        source_name: "gpt-x".to_string(),
        gateway_name: "gw-gpt-x".to_string(),
        source_base_url: "https://api.example.com".to_string(),
    }
}

fn descriptor() -> ChannelDescriptor {
    build_descriptor(&identity())
}

#[test]
fn model_list_is_source_then_gateway() {
    let d = descriptor();
    assert_eq!(d.model_list, vec!["gpt-x".to_string(), "gw-gpt-x".to_string()]);
}

#[test]
fn model_mapping_has_one_entry_keyed_by_gateway_name() {
    let d = descriptor();
    assert_eq!(d.model_mapping, vec![("gw-gpt-x".to_string(), "gpt-x".to_string())]);
}

#[test]
fn display_name_uses_the_host() {
    let d = descriptor();
    assert_eq!(d.display_name, "api.example.com gpt-x -> gw-gpt-x");
}

#[test]
fn display_name_strips_scheme_and_path() {
    let mut id = identity();
    id.source_base_url = "http://h.example.net/v1/chat".to_string();
    let d = build_descriptor(&id);
    assert_eq!(d.display_name, "h.example.net gpt-x -> gw-gpt-x");
}

#[test]
fn malformed_url_degrades_to_raw_string() {
    let mut id = identity();
    id.source_base_url = "not a url".to_string();
    let d = build_descriptor(&id);
    assert_eq!(d.display_name, "not a url gpt-x -> gw-gpt-x");
}

#[test]
fn channel_payload_exact_text() {
    let p = build_channel_payload(&identity(), &"tok".to_string());
    let mut expected = String::new();
    expected.push_str("{\"name\":\"api.example.com gpt-x -> gw-gpt-x\",");
    expected.push_str("\"type\":50,");
    expected.push_str("\"key\":\"tok\",");
    expected.push_str("\"base_url\":\"https://api.example.com\",");
    expected.push_str("\"other\":\"\",");
    expected.push_str("\"model_mapping\":\"{\\\"gw-gpt-x\\\":\\\"gpt-x\\\"}\",");
    expected.push_str("\"system_prompt\":\"\",");
    expected.push_str("\"models\":\"gpt-x,gw-gpt-x\",");
    expected.push_str("\"groups\":[\"default\"],");
    expected.push_str("\"group\":\"default\",");
    expected.push_str(
        "\"config\":\"{\\\"region\\\":\\\"\\\",\\\"sk\\\":\\\"\\\",\\\"ak\\\":\\\"\\\",\\\"user_id\\\":\\\"\\\",\\\"vertex_ai_project_id\\\":\\\"\\\",\\\"vertex_ai_adc\\\":\\\"\\\"}\"}",
    );
    assert_eq!(p, expected);
}

#[test]
fn channel_payload_is_valid_json_with_expected_fields() {
    let p = build_channel_payload(&identity(), &"tok".to_string());
    let v: serde_json::Value = serde_json::from_str(&p).unwrap();
    assert_eq!(v["type"], serde_json::Value::from(50u64));
    assert_eq!(v["models"].as_str().unwrap(), "gpt-x,gw-gpt-x");
    assert_eq!(v["group"].as_str().unwrap(), "default");
    assert_eq!(v["groups"].as_array().unwrap().len(), 1);
    let mapping: serde_json::Value =
        serde_json::from_str(v["model_mapping"].as_str().unwrap()).unwrap();
    assert_eq!(mapping["gw-gpt-x"].as_str().unwrap(), "gpt-x");
}
