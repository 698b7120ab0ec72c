use nacos_api::api::service_query;
use nacos_api::error::{expect_body, ErrorKind, NacosError};
use nacos_api::options::{DeleteServiceOption, GetInstanceOption, GetServiceOption, PostConfigsOption, RemoveInstanceOption};
use nacos_api::query::{catch_mapping, QueryParams};
use nacos_api::text::{decimal_string, push_signed_decimal};
use nacos_api::{DeployConfig, NacosClient, NacosConfig, NacosConfigApi, NacosConfigClient, NacosServiceApi, ServerConfig};
use std::collections::HashMap;

fn as_map(q: &QueryParams) -> HashMap<String, String> {
    q.entries().iter().cloned().collect()
}

fn pairs(items: &[(&str, &str)]) -> HashMap<String, String> {
    items.iter().map(|(k, v)| (k.to_string(), v.to_string())).collect()
}

#[test]
fn decimal_string_writes_base_ten() {
    assert_eq!(decimal_string(0), "0");
    assert_eq!(decimal_string(7), "7");
    assert_eq!(decimal_string(8848), "8848");
    assert_eq!(decimal_string(u64::MAX), "18446744073709551615");
}

#[test]
fn signed_decimal_writes_minus_sign() {
    let mut s = "p=".to_string();
    push_signed_decimal(&mut s, -42);
    assert_eq!(s, "p=-42");
    let mut s = String::new();
    push_signed_decimal(&mut s, i64::MIN);
    assert_eq!(s, "-9223372036854775808");
}

#[test]
fn query_insert_replaces_earlier_value() {
    let mut q = QueryParams::new();
    q.insert("a".to_string(), "1".to_string());
    q.insert("b".to_string(), "2".to_string());
    q.insert("a".to_string(), "3".to_string());
    assert_eq!(q.len(), 2);
    assert_eq!(q.entries(), &vec![("a".to_string(), "3".to_string()), ("b".to_string(), "2".to_string())]);
}

#[test]
fn addr_adds_missing_slash() {
    let n = NacosConfig::new("http", "192.168.0.132", 8848);
    assert_eq!(n.addr("/v1/ns/instance"), "http://192.168.0.132:8848/nacos/v1/ns/instance");
    assert_eq!(n.addr("v1/cs/configs"), "http://192.168.0.132:8848/nacos/v1/cs/configs");
    assert_eq!(n.addr(""), "http://192.168.0.132:8848/nacos/");
}

#[test]
fn default_registry_is_local() {
    let n = NacosConfig::default();
    assert_eq!(n.addr("/x"), "http://127.0.0.1:8848/nacos/x");
}

#[test]
fn exchange_returns_previous_config() {
    let mut n = NacosConfig::new("http", "a", 1);
    let prev = n.exchange(NacosConfig::new("https", "b", 2));
    assert_eq!((prev.scheme.as_str(), prev.nacos_ip.as_str(), prev.nacos_port), ("http", "a", 1));
    assert_eq!((n.scheme.as_str(), n.nacos_ip.as_str(), n.nacos_port), ("https", "b", 2));
}

#[test]
fn server_config_init_map_plain() {
    let s = ServerConfig::new("127.0.0.1", 8080, "test");
    assert_eq!(as_map(&s.init_map()), pairs(&[("ip", "127.0.0.1"), ("port", "8080"), ("serviceName", "test")]));
}

#[test]
fn server_config_init_map_with_ephemeral_and_group() {
    let mut s = ServerConfig::new("127.0.0.1", 8080, "test");
    s.set_ephemeral(true);
    s.set_group_name(Some("G".to_string()));
    assert_eq!(
        as_map(&s.init_map()),
        pairs(&[("ip", "127.0.0.1"), ("port", "8080"), ("serviceName", "test"), ("ephemeral", "true"), ("groupName", "G")])
    );
}

#[test]
fn server_config_setters_and_getters() {
    let mut s = ServerConfig::default();
    assert_eq!((s.server_ip(), s.server_port(), s.server_name(), s.ephemeral()), ("", 0, "", false));
    s.set_server_ip("10.1.1.1".to_string());
    s.set_server_port(9);
    s.set_server_name("svc".to_string());
    assert_eq!((s.server_ip(), s.server_port(), s.server_name()), ("10.1.1.1", 9, "svc"));
    assert_eq!(s.group_name(), &None);
}

#[test]
fn deploy_config_init_map() {
    let d = DeployConfig::new("test_data", "test_group", None);
    assert_eq!(as_map(&d.init_map()), pairs(&[("dataId", "test_data"), ("group", "test_group")]));
    let d = DeployConfig::new("id", "g", Some("t".to_string()));
    assert_eq!(as_map(&d.init_map()), pairs(&[("dataId", "id"), ("group", "g"), ("tenant", "t")]));
    assert_eq!((d.data_id(), d.group(), d.tenant()), ("id", "g", &Some("t".to_string())));
}

#[test]
fn get_instance_option_maps_mixed_case_names() {
    let mut o = GetInstanceOption::default();
    o.set_healthy_only(Some(true));
    o.set_clusters(Some("c1,c2".to_string()));
    let mut q = QueryParams::new();
    catch_mapping(&mut q, &Some(o));
    assert_eq!(as_map(&q), pairs(&[("clusters", "c1,c2"), ("healthyOnly", "true")]));
    let mut o = GetInstanceOption::default();
    o.set_healthy_only(Some(false));
    o.set_namespace_id(Some("ns".to_string()));
    assert_eq!(o.healthy_only(), Some(false));
    assert_eq!(as_map(&service_query("s", &Some(o))), pairs(&[("serviceName", "s"), ("namespaceId", "ns"), ("healthyOnly", "false")]));
}

#[test]
fn catch_mapping_without_option_changes_nothing() {
    let mut q = QueryParams::new();
    q.insert("k".to_string(), "v".to_string());
    catch_mapping::<GetInstanceOption>(&mut q, &None);
    assert_eq!(as_map(&q), pairs(&[("k", "v")]));
}

#[test]
fn service_options_map_group_and_namespace() {
    let mut r = RemoveInstanceOption::default();
    r.set_cluster_name(Some("DEFAULT".to_string()));
    r.set_namespace_id(Some("public".to_string()));
    assert_eq!(r.cluster_name(), &Some("DEFAULT".to_string()));
    let mut q = QueryParams::new();
    catch_mapping(&mut q, &Some(r));
    assert_eq!(as_map(&q), pairs(&[("clusterName", "DEFAULT"), ("namespaceId", "public")]));

    let mut d = DeleteServiceOption::default();
    d.set_group_name(Some("G".to_string()));
    assert_eq!(as_map(&service_query("s", &Some(d))), pairs(&[("serviceName", "s"), ("groupName", "G")]));

    let mut g = GetServiceOption::default();
    g.set_namespace_id(Some("n".to_string()));
    assert_eq!(g.group_name(), &None);
    assert_eq!(as_map(&service_query("s", &Some(g))), pairs(&[("serviceName", "s"), ("namespaceId", "n")]));

    assert_eq!(as_map(&service_query("s", &Some(PostConfigsOption::default()))), pairs(&[("serviceName", "s")]));
}

#[test]
fn beat_query_carries_payload_when_given() {
    let api = NacosServiceApi::new(ServerConfig::new("1.2.3.4", 80, "svc"));
    assert_eq!(as_map(&api.beat_query(&None)), pairs(&[("ip", "1.2.3.4"), ("port", "80"), ("serviceName", "svc")]));
    assert_eq!(
        as_map(&api.beat_query(&Some("{}".to_string()))),
        pairs(&[("ip", "1.2.3.4"), ("port", "80"), ("serviceName", "svc"), ("beat", "{}")])
    );
}

#[test]
fn instance_query_names_the_instance() {
    let q = NacosServiceApi::instance_query("svc", "1.2.3.4", 8080, &None);
    assert_eq!(as_map(&q), pairs(&[("serviceName", "svc"), ("ip", "1.2.3.4"), ("port", "8080")]));
}

#[test]
fn upload_query_adds_content_and_type() {
    let d = DeployConfig::new("id", "g", None);
    let q = NacosConfigApi::upload_query(&d, "a=1", &Some("properties".to_string()));
    assert_eq!(as_map(&q), pairs(&[("dataId", "id"), ("group", "g"), ("content", "a=1"), ("type", "properties")]));
    let q = NacosConfigApi::upload_query(&d, "", &None);
    assert_eq!(as_map(&q), pairs(&[("dataId", "id"), ("group", "g"), ("content", "")]));
}

#[test]
fn expect_body_accepts_exact_body_only() {
    assert!(expect_body("ok".to_string(), "ok").is_ok());
    match expect_body("caused: no such service".to_string(), "ok") {
        Err(e) => {
            assert_eq!(e.kind(), ErrorKind::Server);
            assert_eq!(e.reason(), "caused: no such service");
        }
        Ok(()) => panic!("accepted a wrong body"),
    }
    assert!(expect_body("ok ".to_string(), "ok").is_err());
}

#[test]
fn error_constructors_set_kind() {
    let e = NacosError::throw("boom");
    assert_eq!((e.kind(), e.reason()), (ErrorKind::Server, "boom"));
    assert_eq!(NacosError::no_healthy_instance().kind(), ErrorKind::NoHealthyInstance);
    assert_eq!(NacosError::new(ErrorKind::Decode, "bad json").kind, ErrorKind::Decode);
    assert_eq!(NacosError::new(ErrorKind::Transport, "timeout").kind, ErrorKind::Transport);
}

#[test]
fn clients_hold_what_they_were_given() {
    let n = NacosConfig::new("http", "192.168.0.132", 8848);
    let mut c = NacosClient::new(&n, ServerConfig::new("127.0.0.1", 8080, "test"));
    assert_eq!(c.nacos_config().nacos_ip, "192.168.0.132");
    assert_eq!(c.service_api().config().server_name(), "test");
    c.nacos_config_mut().nacos_port = 9848;
    c.service_api_mut().config_mut().set_server_port(8081);
    assert_eq!(c.nacos_config().nacos_port, 9848);
    assert_eq!(c.service_api().config().server_port(), 8081);
    let copy = c.clone();
    assert_eq!(copy.nacos_config().nacos_port, 9848);

    let cc = NacosConfigClient::new("test_data", "test_grep", None);
    assert_eq!(cc.config_api().deploy_config().data_id(), "test_data");
    let cc2 = NacosConfigClient::from(NacosConfigApi::new(DeployConfig::new("d", "g", Some("t".to_string()))));
    assert_eq!(cc2.config_api().deploy_config().tenant(), &Some("t".to_string()));
}
