use unifi_proxy::device::{Device, Ipv4Address};
use unifi_proxy::dog::{create_dog, get_dog, parse_validation_errors, Dog};
use unifi_proxy::errors::{Errors, FieldError};
use unifi_proxy::mac::MacAddress;
use unifi_proxy::settings::{validate_port, ServerSettings, Settings, UnifiSettings};

fn fields(e: Errors) -> Vec<(String, Vec<String>)> {
    match e {
        Errors::ValidationError { field_errors } => {
            field_errors.into_iter().map(|f| (f.field, f.codes)).collect()
        }
        other => panic!("unexpected {other:?}"),
    }
}

#[test]
fn short_breed_is_rejected() {
    let dog = Dog::new("ab", "Black", true);
    let err = create_dog(dog).err().unwrap();
    assert_eq!(err.status_code(), 400);
    assert_eq!(fields(err), vec![("breed".to_string(), vec!["length".to_string()])]);
}

#[test]
fn valid_dog_gets_server_breed() {
    let resp = create_dog(Dog::new("Labrador", "Black", true)).ok().unwrap();
    assert_eq!(resp.data.get_breed(), "Terrier");
    assert_eq!(resp.data.get_color(), "Black");
    assert_eq!(resp.data.get_is_vaccinated(), Some(true));
}

#[test]
fn missing_vaccination_is_reported_in_camel_case() {
    let mut dog = Dog::new("Labrador", "Bk", false);
    dog.set_is_vaccinated(None);
    let err = create_dog(dog).err().unwrap();
    assert_eq!(
        fields(err),
        vec![
            ("color".to_string(), vec!["length".to_string()]),
            ("isVaccinated".to_string(), vec!["required".to_string()]),
        ]
    );
}

#[test]
fn field_names_are_camel_cased() {
    let input = vec![FieldError { field: "mac_address".to_string(), codes: vec!["a".to_string(), "b".to_string()] }];
    let out = parse_validation_errors(input);
    assert_eq!(out[0].field, "macAddress");
    assert_eq!(out[0].codes, vec!["a".to_string(), "b".to_string()]);
}

#[test]
fn dog_listing_is_not_found() {
    assert!(matches!(get_dog(), Err(Errors::NotFoundError)));
    assert_eq!(Dog::new("Pug", "Tan", true).bark(), "Bark!");
}

#[test]
fn dog_setters_change_one_field() {
    let mut dog = Dog::new("Pug", "Tan", true);
    dog.set_breed("Boxer".to_string());
    dog.set_color("Brindle".to_string());
    assert_eq!(dog.get_breed(), "Boxer");
    assert_eq!(dog.get_color(), "Brindle");
    assert!(dog.validate().is_ok());
}

#[test]
fn device_keeps_its_fields() {
    let mac = MacAddress::parse_str("AA:BB:CC:DD:EE:FF").unwrap();
    let d = Device::new("Router", mac, Ipv4Address::new(1, 1, 1, 1));
    assert_eq!(d.get_hostname(), "Router");
    assert_eq!(d.get_mac_address(), "aa:bb:cc:dd:ee:ff");
    assert_eq!(d.get_ip_address(), Ipv4Address::new(1, 1, 1, 1));
}

#[test]
fn ports_in_range_are_accepted() {
    assert_eq!(validate_port("8080"), Ok(8080));
    assert_eq!(validate_port("1024"), Ok(1024));
    assert_eq!(validate_port("65535"), Ok(65535));
    assert_eq!(validate_port("+2000"), Ok(2000));
}

#[test]
fn ports_out_of_range_are_refused() {
    assert_eq!(validate_port("80"), Err("port not in range 1024-65535".to_string()));
    assert_eq!(validate_port("65536"), Err("port not in range 1024-65535".to_string()));
}

#[test]
fn non_numbers_are_refused() {
    assert_eq!(validate_port("abc"), Err("`abc` isn't a port number".to_string()));
    assert_eq!(validate_port(""), Err("`` isn't a port number".to_string()));
    assert_eq!(validate_port("-5"), Err("`-5` isn't a port number".to_string()));
    assert_eq!(
        validate_port("999999999999999999999999"),
        Err("`999999999999999999999999` isn't a port number".to_string())
    );
}

#[test]
fn settings_keep_their_parts() {
    let s = Settings::from_parts(
        ServerSettings::new(Ipv4Address::new(127, 0, 0, 1), 8080),
        UnifiSettings::new("https://u".to_string(), "me".to_string(), "pw".to_string()),
    );
    assert_eq!(s.get_server().get_port(), 8080);
    assert_eq!(s.get_server().get_address(), Ipv4Address::new(127, 0, 0, 1));
    assert_eq!(s.get_unifi().get_base_url(), "https://u");
    assert_eq!(s.get_unifi().get_password(), "pw");
}
