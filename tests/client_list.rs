use unifi_proxy::clients::{ListClientsDevice, ListClientsResponse};
use unifi_proxy::upstream::UpstreamFailure;
use unifi_proxy::upstream::list_clients;

#[test]
fn summary_falls_back_to_none_for_absent_fields() {
    let wired = ListClientsDevice { mac: Some("aa:bb:cc:dd:ee:ff".to_string()), is_wired: Some(true), ..Default::default() };
    assert_eq!(wired.summary(), ("None".to_string(), "aa:bb:cc:dd:ee:ff".to_string()));
    let named = ListClientsDevice { name: Some("phone".to_string()), ..Default::default() };
    assert_eq!(named.summary(), ("phone".to_string(), "None".to_string()));
    assert!(named.mac.is_none());
}

#[test]
fn decoded_client_list_keeps_absent_fields_absent() {
    let list = ListClientsResponse { meta: Default::default(), data: vec![ListClientsDevice::default()] };
    let out = list_clients(Some(200), "200 OK", Some(list)).ok().unwrap();
    assert_eq!(out.data.len(), 1);
    assert!(out.data[0].name.is_none());
    assert!(out.data[0].hostname.is_none());
}

#[test]
fn client_list_on_server_error_is_not_decoded() {
    let list = ListClientsResponse { meta: Default::default(), data: vec![] };
    let r = list_clients(Some(502), "Bad Gateway", Some(list));
    assert!(matches!(r, Err(UpstreamFailure::Status { code: 502, .. })));
}
