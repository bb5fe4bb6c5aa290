use nacos_bridge::facade::{DeregisterOutcome, FacadeError, NacosNamingAndConfigData};
use nacos_bridge::model::{ConfigEntry, Instance};
use nacos_bridge::settings::{credential_present, rewrite_namespace, transport_namespace, ClientSettings};
use nacos_bridge::state::NamingState;

fn facade(namespace: &str) -> NacosNamingAndConfigData {
    NacosNamingAndConfigData::new(
        "127.0.0.1:8848".to_string(),
        namespace.to_string(),
        "t".to_string(),
        None,
        None,
    )
}

fn meta(k: &str, v: &str) -> Vec<(String, String)> {
    vec![(k.to_string(), v.to_string())]
}

#[test]
fn namespace_public_in_any_case_becomes_empty() {
    assert_eq!(transport_namespace("public".to_string()), "");
    assert_eq!(transport_namespace("Public".to_string()), "");
    assert_eq!(transport_namespace("PUBLIC".to_string()), "");
}

#[test]
fn other_namespaces_pass_verbatim() {
    assert_eq!(transport_namespace("".to_string()), "");
    assert_eq!(transport_namespace("Dev".to_string()), "Dev");
    assert_eq!(transport_namespace("publicx".to_string()), "publicx");
    assert_eq!(rewrite_namespace("Public".to_string(), &"public".to_string()), "");
    assert_eq!(rewrite_namespace("Prod".to_string(), &"prod".to_string()), "Prod");
}

#[test]
fn facade_settings_rewrite_namespace() {
    let f = facade("PUBLIC");
    assert_eq!(f.settings().namespace, "");
    assert_eq!(f.settings().server_addr, "127.0.0.1:8848");
    assert_eq!(f.settings().app_name, "t");
    assert!(!f.settings().http_login);
}

#[test]
fn auth_enabled_iff_a_credential_counts() {
    let s = |u: Option<&str>, p: Option<&str>| {
        ClientSettings::new(
            "a".to_string(),
            "n".to_string(),
            "t".to_string(),
            u.map(|x| x.to_string()),
            p.map(|x| x.to_string()),
        )
    };
    assert!(!s(None, None).http_login);
    assert!(!s(Some(""), Some("")).http_login);
    assert!(!s(Some(""), None).http_login);
    let only_user = s(Some("nacos"), None);
    assert!(only_user.http_login);
    assert_eq!(only_user.username, Some("nacos".to_string()));
    assert_eq!(only_user.password, None);
    let only_pass = s(Some(""), Some("secret"));
    assert!(only_pass.http_login);
    assert_eq!(only_pass.username, None);
    assert_eq!(only_pass.password, Some("secret".to_string()));
    assert!(s(Some("u"), Some("p")).http_login);
    assert!(credential_present(&Some("x".to_string())));
    assert!(!credential_present(&Some(String::new())));
    assert!(!credential_present(&None));
}

#[test]
fn register_then_state() {
    let mut f = facade("public");
    let reg = NacosNamingAndConfigData::prepare_registration(
        "svcA".to_string(),
        9000,
        "10.0.0.5".to_string(),
        None,
        meta("v", "1"),
    );
    assert_eq!(reg.group_name, Some("DEFAULT_GROUP".to_string()));
    let got = f.register_service(reg, Ok(())).unwrap();
    assert_eq!(got.len(), 1);
    assert_eq!(got[0].ip, "10.0.0.5");
    assert_eq!(got[0].port, 9000);
    assert_eq!(got[0].metadata, meta("v", "1"));
    assert!(got[0].healthy && got[0].enabled);
    let st = f.get_state();
    assert_eq!(st.service_name, "svcA");
    assert_eq!(st.group_name, Some("DEFAULT_GROUP".to_string()));
    assert_eq!(st.service_instance.len(), 1);
    assert_eq!(st.service_instance[0].ip, "10.0.0.5");
    assert_eq!(st.service_instance[0].port, 9000);
    assert_eq!(st.service_instance[0].metadata, meta("v", "1"));
    assert_eq!(f.subscription_group(), Some("DEFAULT_GROUP".to_string()));
}

#[test]
fn register_with_group_keeps_it() {
    let reg = NacosNamingAndConfigData::prepare_registration(
        "svc".to_string(),
        1,
        "1.2.3.4".to_string(),
        Some("G".to_string()),
        Vec::new(),
    );
    assert_eq!(reg.group_name, Some("G".to_string()));
    assert_eq!(reg.service_name, "svc");
}

#[test]
fn register_failure_leaves_state_empty() {
    let mut f = facade("public");
    let reg = NacosNamingAndConfigData::prepare_registration(
        "svcA".to_string(),
        9000,
        "10.0.0.5".to_string(),
        None,
        meta("v", "1"),
    );
    let err = f.register_service(reg, Err("boom".to_string())).unwrap_err();
    assert!(matches!(err, FacadeError::Registry(_)));
    assert!(err.message().contains("boom"));
    let st = f.get_state();
    assert_eq!(st.service_name, "");
    assert_eq!(st.group_name, None);
    assert!(st.service_instance.is_empty());
    assert_eq!(f.subscription_group(), None);
}

#[test]
fn update_state_replaces_all_fields() {
    let mut f = facade("dev");
    f.update_state(
        "a".to_string(),
        Some("g1".to_string()),
        vec![Instance::new("1.1.1.1".to_string(), 1, Vec::new())],
    );
    f.update_state("b".to_string(), None, Vec::new());
    let st = f.get_state();
    assert_eq!(st.service_name, "b");
    assert_eq!(st.group_name, None);
    assert!(st.service_instance.is_empty());
    assert!(!st.is_registered());
}

fn two_instances() -> NamingState {
    NamingState {
        service_name: "svc".to_string(),
        group_name: Some("DEFAULT_GROUP".to_string()),
        service_instance: vec![
            Instance::new("10.0.0.1".to_string(), 80, Vec::new()),
            Instance::new("10.0.0.2".to_string(), 81, Vec::new()),
        ],
    }
}

#[test]
fn deregister_aggregation() {
    let st = two_instances();
    let DeregisterOutcome { log_line, result } =
        NacosNamingAndConfigData::deregister_service(&st, &vec![Err("e1".to_string()), Ok(())]);
    let err = result.unwrap_err();
    assert!(matches!(err, FacadeError::Registry(_)));
    assert_eq!(err.message(), "failed to deregister instances: e1");
    assert_eq!(log_line, "deregister instances: svc@10.0.0.2");
}

#[test]
fn deregister_joins_every_failure() {
    let st = two_instances();
    let out = NacosNamingAndConfigData::deregister_service(
        &st,
        &vec![Err("e1".to_string()), Err("e2".to_string())],
    );
    assert_eq!(out.result.unwrap_err().message(), "failed to deregister instances: e1, e2");
    assert_eq!(out.log_line, "deregister instances: ");
}

#[test]
fn deregister_all_succeed() {
    let st = two_instances();
    let out = NacosNamingAndConfigData::deregister_service(&st, &vec![Ok(()), Ok(())]);
    assert!(out.result.is_ok());
    assert_eq!(out.log_line, "deregister instances: svc@10.0.0.1, svc@10.0.0.2");
}

#[test]
fn deregister_nothing_registered() {
    let out = NacosNamingAndConfigData::deregister_service(&NamingState::new(), &Vec::new());
    assert!(out.result.is_ok());
    assert_eq!(out.log_line, "deregister instances: ");
}

#[test]
fn subscribe_outcomes() {
    assert!(NacosNamingAndConfigData::subscribe_service(Ok(())).is_ok());
    let e = NacosNamingAndConfigData::subscribe_service(Err("down".to_string())).unwrap_err();
    assert!(matches!(e, FacadeError::Subscription(_)));
    assert_eq!(e.message(), "subscribe_service error: down");
}

#[test]
fn config_listener_outcomes() {
    assert!(NacosNamingAndConfigData::add_config_listener(Ok(())).is_ok());
    let e = NacosNamingAndConfigData::add_config_listener(Err("x".to_string())).unwrap_err();
    assert!(matches!(e, FacadeError::Config(_)));
    assert_eq!(e.message(), "listen config error x");
}

#[test]
fn get_config_outcomes() {
    let entry = ConfigEntry {
        namespace: String::new(),
        data_id: "cfg".to_string(),
        group: "DEFAULT_GROUP".to_string(),
        content: "k=v".to_string(),
        content_type: "text".to_string(),
    };
    assert_eq!(NacosNamingAndConfigData::get_config(Ok(entry)).unwrap(), "k=v");
    let e = NacosNamingAndConfigData::get_config(Err("404".to_string())).unwrap_err();
    assert!(matches!(e, FacadeError::Config(_)));
    assert_eq!(e.message(), "failed to get config: 404");
}

#[test]
fn address_given_or_discovered() {
    assert_eq!(
        NacosNamingAndConfigData::choose_address(Some("10.0.0.9".to_string())).unwrap(),
        "10.0.0.9"
    );
    assert_eq!(
        NacosNamingAndConfigData::address_from(None, Ok("192.168.1.2".to_string())).unwrap(),
        "192.168.1.2"
    );
    let e = NacosNamingAndConfigData::address_from(None, Err("no route".to_string())).unwrap_err();
    assert!(matches!(e, FacadeError::Network(_)));
    assert_eq!(e.message(), "no route");
    assert_eq!(
        NacosNamingAndConfigData::address_from(Some("1.1.1.1".to_string()), Err("x".to_string()))
            .unwrap(),
        "1.1.1.1"
    );
}
