use sdr_remote::discovery::{
    addr_port_text, instance_from_fullname, pick_address, remove_server, server_from_resolved,
    service_type, sort_by_label, txt_value, upsert_server, AddressKind, DiscoveredServer,
};

fn server(instance: &str, name: Option<&str>, addr: &str) -> DiscoveredServer {
    DiscoveredServer {
        instance: instance.to_string(),
        friendly_name: name.map(String::from),
        addr_port: addr.to_string(),
        version: None,
    }
}

#[test]
fn label_prefers_friendly_name() {
    assert_eq!(server("host1", Some("Shack PC"), "10.0.0.2:4580").display_label(), "Shack PC (10.0.0.2:4580)");
    assert_eq!(server("host1", None, "10.0.0.2:4580").display_label(), "host1 (10.0.0.2:4580)");
}

#[test]
fn service_type_name() {
    assert_eq!(service_type(), "_thetislink._udp.local.");
}

#[test]
fn instance_is_text_before_first_dot() {
    assert_eq!(instance_from_fullname("Shack PC._thetislink._udp.local."), "Shack PC");
    assert_eq!(instance_from_fullname("nodot"), "nodot");
    assert_eq!(instance_from_fullname(".leading"), "");
}

#[test]
fn address_prefers_ipv4_then_ipv6_never_loopback() {
    let v4 = AddressKind { ipv4: true, loopback: false };
    let v6 = AddressKind { ipv4: false, loopback: false };
    let lo4 = AddressKind { ipv4: true, loopback: true };
    let lo6 = AddressKind { ipv4: false, loopback: true };
    assert_eq!(pick_address(&vec![v6, lo4, v4]), Some(2));
    assert_eq!(pick_address(&vec![lo4, v6, lo6]), Some(1));
    assert_eq!(pick_address(&vec![lo4, lo6]), None);
    assert_eq!(pick_address(&vec![]), None);
}

#[test]
fn addr_port_joins_with_colon() {
    assert_eq!(addr_port_text("192.168.1.5", 4580), "192.168.1.5:4580");
    assert_eq!(addr_port_text("fe80::1", 0), "fe80::1:0");
}

#[test]
fn txt_lookup_ignores_key_case_and_last_wins() {
    let props = vec![
        ("Name".to_string(), "First".to_string()),
        ("version".to_string(), "2.1".to_string()),
        ("NAME".to_string(), "Second".to_string()),
    ];
    assert_eq!(txt_value(&props, "name").as_deref(), Some("Second"));
    assert_eq!(txt_value(&props, "version").as_deref(), Some("2.1"));
    assert_eq!(txt_value(&props, "other"), None);
}

#[test]
fn resolved_record() {
    let props = vec![("name".to_string(), "Shack".to_string())];
    let s = server_from_resolved("host._thetislink._udp.local.", "10.1.2.3", 4580, &props);
    assert_eq!(s.instance, "host");
    assert_eq!(s.friendly_name.as_deref(), Some("Shack"));
    assert_eq!(s.addr_port, "10.1.2.3:4580");
    assert_eq!(s.version, None);
}

#[test]
fn upsert_replaces_same_instance_else_appends() {
    let mut list = vec![server("a", None, "1:1"), server("b", None, "2:2")];
    upsert_server(&mut list, server("b", Some("B"), "3:3"));
    assert_eq!(list.len(), 2);
    assert_eq!(list[1].addr_port, "3:3");
    upsert_server(&mut list, server("c", None, "4:4"));
    assert_eq!(list.len(), 3);
    assert_eq!(list[2].instance, "c");
}

#[test]
fn remove_drops_every_record_of_instance() {
    let mut list = vec![server("a", None, "1"), server("b", None, "2"), server("a", None, "3")];
    remove_server(&mut list, "a");
    assert_eq!(list.len(), 1);
    assert_eq!(list[0].instance, "b");
    remove_server(&mut list, "zzz");
    assert_eq!(list.len(), 1);
}

#[test]
fn snapshot_order_is_by_label() {
    let list = vec![
        server("zeta", None, "1.1.1.1:1"),
        server("alpha", Some("Shack"), "2.2.2.2:2"),
        server("beta", None, "3.3.3.3:3"),
        server("Alpha", None, "4.4.4.4:4"),
    ];
    let sorted = sort_by_label(list);
    let labels: Vec<String> = sorted.iter().map(|s| s.display_label()).collect();
    let mut expected = labels.clone();
    expected.sort();
    assert_eq!(labels, expected);
    assert_eq!(labels[0], "Alpha (4.4.4.4:4)");
    assert_eq!(labels[3], "zeta (1.1.1.1:1)");
    assert_eq!(sorted.len(), 4);
}
