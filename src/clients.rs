use vstd::prelude::*;
use std::collections::HashMap;
use crate::upstream::display_or_none;

verus! {

/// One client as the controller reports it. Every field is optional: wired and
/// wireless clients report different sets, and an absent field is no error.
#[derive(Debug, Default)]
pub struct ListClientsDevice {
    pub site_id: Option<String>,
    pub assoc_time: Option<i64>,
    pub latest_assoc_time: Option<i64>,
    pub hostname: Option<String>,
    pub _uptime_by_uap: Option<i64>,
    pub _last_seen_by_uap: Option<i64>,
    pub _is_guest_by_uap: Option<bool>,
    pub ap_mac: Option<String>,
    pub channel: Option<i64>,
    pub radio: Option<String>,
    pub radio_name: Option<String>,
    pub essid: Option<String>,
    pub bssid: Option<String>,
    pub powersave_enabled: Option<bool>,
    pub is_11r: Option<bool>,
    pub user_group_id_computed: Option<String>,
    pub anon_client_id: Option<String>,
    pub ccq: Option<i64>,
    pub dhcpend_time: Option<i64>,
    pub idletime: Option<i64>,
    pub noise: Option<i64>,
    pub nss: Option<i64>,
    pub rx_rate: Option<i64>,
    pub rssi: Option<i64>,
    pub satisfaction_now: Option<i64>,
    pub satisfaction_real: Option<i64>,
    pub satisfaction_reason: Option<i64>,
    pub signal: Option<i64>,
    pub tx_mcs: Option<i64>,
    pub tx_power: Option<i64>,
    pub tx_rate: Option<i64>,
    pub vlan: Option<i64>,
    pub radio_proto: Option<String>,
    pub tx_bytes: Option<i64>,
    pub rx_bytes: Option<i64>,
    pub tx_packets: Option<i64>,
    pub rx_packets: Option<i64>,
    pub tx_bytes_r: Option<i64>,
    pub rx_bytes_r: Option<i64>,
    pub bytes_r: Option<i64>,
    pub wlanconf_id: Option<String>,
    pub disconnect_timestamp: Option<i64>,
    pub oui: Option<String>,
    pub user_id: Option<String>,
    pub _id: Option<String>,
    pub mac: Option<String>,
    pub is_guest: Option<bool>,
    pub first_seen: Option<i64>,
    pub last_seen: Option<i64>,
    pub is_wired: Option<bool>,
    pub usergroup_id: Option<String>,
    pub name: Option<String>,
    pub noted: Option<bool>,
    pub _uptime_by_usw: Option<i64>,
    pub _last_seen_by_usw: Option<i64>,
    pub _is_guest_by_usw: Option<bool>,
    pub sw_mac: Option<String>,
    pub sw_depth: Option<i64>,
    pub sw_port: Option<i64>,
    pub wired_rate_mbps: Option<i64>,
    pub network: Option<String>,
    pub network_id: Option<String>,
    pub anomalies: Option<i64>,
    pub satisfaction_avg: Option<HashMap<String, i64>>,
    pub uptime: Option<i64>,
    pub wired_tx_bytes: Option<i64>,
    pub wired_rx_bytes: Option<i64>,
    pub wired_tx_packets: Option<i64>,
    pub wired_rx_packets: Option<i64>,
    pub wired_tx_bytes_r: Option<i64>,
    pub wired_rx_bytes_r: Option<i64>,
    pub ip: Option<String>,
    pub hostname_source: Option<String>,
    pub satisfaction: Option<i64>,
    pub _uptime_by_ugw: Option<i64>,
    pub _last_seen_by_ugw: Option<i64>,
    pub _is_guest_by_ugw: Option<bool>,
    pub gw_mac: Option<String>,
    pub tx_retries: Option<i64>,
    pub wifi_tx_attempts: Option<i64>,
    pub authorized: Option<bool>,
    pub qos_policy_applied: Option<bool>,
    pub fingerprint_source: Option<i64>,
    pub dev_cat: Option<i64>,
    pub dev_family: Option<i64>,
    pub dev_vendor: Option<i64>,
    pub dev_id: Option<i64>,
    pub device_name: Option<String>,
    pub fw_version: Option<String>,
    pub score: Option<i64>,
    pub fingerprint_engine_version: Option<String>,
}

/// The controller's answer to a client listing.
#[derive(Debug, Default)]
pub struct ListClientsResponse {
    pub meta: HashMap<String, String>,
    pub data: Vec<ListClientsDevice>,
}

impl ListClientsDevice {
    /// The name and MAC address to log for this client, `None` for each one absent.
    pub fn summary(&self) -> (r: (String, String))
        ensures
            r.0@ == match self.name {
                Some(s) => s@,
                None => "None"@,
            },
            r.1@ == match self.mac {
                Some(s) => s@,
                None => "None"@,
            },
    {
        (display_or_none(&self.name), display_or_none(&self.mac))
    }
}

} // verus!
