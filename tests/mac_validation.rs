use unifi_proxy::device::get_device_by_mac;
use unifi_proxy::errors::{ErrorPayload, Errors, FieldError};
use unifi_proxy::mac::{validate, MacAddress, MacParseError};

fn single_code(e: &Errors) -> Option<(String, String)> {
    match e {
        Errors::ValidationError { field_errors } if field_errors.len() == 1 => {
            let f: &FieldError = &field_errors[0];
            if f.codes.len() == 1 {
                Some((f.field.clone(), f.codes[0].clone()))
            } else {
                None
            }
        }
        _ => None,
    }
}

fn code_of(raw: &str) -> String {
    match validate(raw) {
        Ok(c) => panic!("{raw} was accepted as {c}"),
        Err(e) => {
            let (field, code) = single_code(&e).unwrap();
            assert_eq!(field, "macAddress");
            code
        }
    }
}

#[test]
fn well_formed_mac_is_canonicalised() {
    assert_eq!(validate("AA:BB:CC:DD:EE:FF").unwrap(), "aa:bb:cc:dd:ee:ff");
}

#[test]
fn canonical_form_ignores_separator_and_case() {
    let forms = ["AA:BB:CC:DD:EE:FF", "aa-bb-cc-dd-ee-ff", "Aa:bB-cc:DD-ee:Ff", "aa:bb:cc:dd:ee:ff"];
    for f in forms {
        assert_eq!(validate(f).unwrap(), "aa:bb:cc:dd:ee:ff");
    }
    assert_eq!(validate("01-23-45-67-89-0a").unwrap(), "01:23:45:67:89:0a");
}

#[test]
fn wrong_length_is_reported_as_length() {
    assert_eq!(code_of("not-a-mac"), "length");
    assert_eq!(code_of(""), "length");
    assert_eq!(code_of("AA:BB:CC:DD:EE:FF:00"), "length");
    assert_eq!(code_of("AA:BB:CC"), "length");
}

#[test]
fn non_hex_of_right_length_is_reported_as_bytes() {
    assert_eq!(code_of("ZZ:ZZ:ZZ:ZZ:ZZ:ZZ"), "bytes");
    assert_eq!(code_of("AA:BB:CC:DD:EE:GG"), "bytes");
    assert_eq!(code_of("xx:yy:zz:ww:vv:uu"), "bytes");
}

#[test]
fn malformed_unicode_input_is_a_normal_error() {
    for raw in ["ÿÿÿÿÿÿÿÿÿÿÿÿ", "é:é:é:é:é:é", "💥💥💥💥", "AA:BB:CC:DD:EE:F💥"] {
        assert!(validate(raw).is_err());
    }
}

#[test]
fn parse_str_reports_each_error_kind() {
    assert!(matches!(MacAddress::parse_str("abc"), Err(MacParseError::InvalidLength)));
    assert!(matches!(MacAddress::parse_str("qq:qq:qq:qq:qq:qq"), Err(MacParseError::InvalidByteCount)));
    let mac = MacAddress::parse_str("12:34:56:AB:CD:EF").unwrap();
    assert_eq!(mac.octets, [0x12, 0x34, 0x56, 0xab, 0xcd, 0xef]);
    assert_eq!(mac.to_hex_string(), "12:34:56:ab:cd:ef");
}

#[test]
fn device_route_rejects_not_a_mac_with_400() {
    let err = match get_device_by_mac("not-a-mac") {
        Ok(_) => panic!("accepted"),
        Err(e) => e,
    };
    let (status, body) = err.error_response();
    assert_eq!(status, 400);
    match body.error_message {
        ErrorPayload::Fields(fields) => {
            assert_eq!(fields.len(), 1);
            assert_eq!(fields[0].field, "macAddress");
            assert_eq!(fields[0].codes, vec!["length".to_string()]);
        }
        ErrorPayload::Text(t) => panic!("text payload {t}"),
    }
}

#[test]
fn device_route_resolves_a_valid_mac() {
    let resp = get_device_by_mac("AA-BB-CC-DD-EE-FF").ok().unwrap();
    assert_eq!(resp.data.get_mac_address(), "aa:bb:cc:dd:ee:ff");
    assert_eq!(resp.data.get_hostname(), "fake");
    let ip = resp.data.get_ip_address();
    assert_eq!((ip.a, ip.b, ip.c, ip.d), (1, 1, 1, 1));
}

#[test]
fn canonical_form_validates_to_itself() {
    let c = validate("0A-1B-2C-3D-4E-5F").unwrap();
    assert_eq!(c, "0a:1b:2c:3d:4e:5f");
    assert_eq!(validate(&c).unwrap(), c);
}

#[test]
fn device_identifier_reads_back_as_its_address() {
    let resp = get_device_by_mac("FF:EE:DD:00:11:22").ok().unwrap();
    let again = MacAddress::parse_str(resp.data.get_mac_address()).unwrap();
    assert_eq!(again.octets, [0xff, 0xee, 0xdd, 0x00, 0x11, 0x22]);
}

#[test]
fn wrong_octet_count_is_reported_as_length() {
    assert_eq!(code_of("::::::::::::"), "length");
    assert_eq!(code_of("AA:BB:CC:DD:EE"), "length");
    assert_eq!(code_of("1234567890ABCD"), "length");
    assert_eq!(code_of("AABBCCDDEEFF00112"), "length");
    assert_eq!(code_of("A:BB:CC:DD:EE:FF"), "length");
}

#[test]
fn invalid_octet_content_is_reported_as_bytes() {
    assert_eq!(code_of("AA:BB:CC:DD:EE:FG"), "bytes");
    assert_eq!(code_of("Ax:BB:CC:DD:EE:FF"), "bytes");
    assert_eq!(code_of("AA-BB-CC-DD-EE-F."), "bytes");
}

#[test]
fn device_route_reports_octet_count_as_length() {
    let err = get_device_by_mac("::::::::::::").err().unwrap();
    assert_eq!(single_code(&err), Some(("macAddress".to_string(), "length".to_string())));
    let err = get_device_by_mac("AA:BB:CC:DD:EE:FG").err().unwrap();
    assert_eq!(single_code(&err), Some(("macAddress".to_string(), "bytes".to_string())));
}
