use vstd::prelude::*;
use vstd::string::*;
use crate::device::Ipv4Address;

verus! {

/// The lowest port the server may listen on.
pub const MIN_PORT: usize = 1024;

/// The highest port the server may listen on.
pub const MAX_PORT: usize = 65535;

/// A non-empty run of ASCII decimal digits.
pub open spec fn all_decimal_digits(s: Seq<char>) -> bool {
    s.len() > 0 && forall|i: int| 0 <= i < s.len() ==> '0' <= #[trigger] s[i] && s[i] <= '9'
}

/// The value of a run of decimal digits.
pub open spec fn decimal_value(s: Seq<char>) -> int
    decreases s.len(),
{
    if s.len() == 0 {
        0
    } else {
        decimal_value(s.drop_last()) * 10 + ((s.last() as int) - ('0' as int))
    }
}

/// The digits of an unsigned number, after an optional `+` sign.
pub open spec fn unsigned_digits(s: Seq<char>) -> Seq<char> {
    if s.len() > 0 && s[0] == '+' {
        s.drop_first()
    } else {
        s
    }
}

/// The `usize` that a string writes in decimal, if it writes one.
pub open spec fn usize_of(s: Seq<char>) -> Option<int> {
    let d = unsigned_digits(s);
    if all_decimal_digits(d) && decimal_value(d) <= usize::MAX {
        Some(decimal_value(d))
    } else {
        None
    }
}

/// Relies on `str::parse::<usize>`: an optional `+` followed by decimal digits
/// whose value fits in `usize` is read as that value; anything else is an error.
#[verifier::external_body]
fn parse_usize(s: &str) -> (r: Result<usize, ()>)
    ensures
        match usize_of(s@) {
            Some(v) => r matches Ok(x) && x as int == v,
            None => r is Err,
        },
{
    s.parse::<usize>().map_err(|_| ())
}

/// Reads a port number: a decimal number from 1024 to 65535.
pub fn validate_port(n: &str) -> (r: Result<u16, String>)
    ensures
        match usize_of(n@) {
            Some(v) => if MIN_PORT <= v <= MAX_PORT {
                r matches Ok(p) && p as int == v
            } else {
                r matches Err(msg) && msg@ == "port not in range 1024-65535"@
            },
            None => r matches Err(msg) && msg@ == "`"@ + n@ + "` isn't a port number"@,
        },
{
    match parse_usize(n) {
        Err(()) => {
            let msg = String::from_str("`").concat(n).concat("` isn't a port number");
            Err(msg)
        },
        Ok(port) => {
            if MIN_PORT <= port && port <= MAX_PORT {
                Ok(port as u16)
            } else {
                Err(String::from_str("port not in range 1024-65535"))
            }
        },
    }
}

/// Where the server listens.
#[derive(Debug)]
pub struct ServerSettings {
    address: Ipv4Address,
    port: u16,
}

impl ServerSettings {
    pub fn new(address: Ipv4Address, port: u16) -> (r: ServerSettings)
        ensures
            r.get_address() == address,
            r.get_port() == port,
    {
        ServerSettings { address, port }
    }

    #[verifier::when_used_as_spec(spec_address)]
    pub fn get_address(&self) -> (r: Ipv4Address)
        ensures
            r == self.spec_address(),
    {
        self.address
    }

    #[verifier::when_used_as_spec(spec_port)]
    pub fn get_port(&self) -> (r: u16)
        ensures
            r == self.spec_port(),
    {
        self.port
    }

    pub closed spec fn spec_address(&self) -> Ipv4Address {
        self.address
    }

    pub closed spec fn spec_port(&self) -> u16 {
        self.port
    }
}

/// The controller to talk to, and the credentials to log in with.
#[derive(Debug)]
pub struct UnifiSettings {
    base_url: String,
    username: String,
    password: String,
}

impl UnifiSettings {
    pub closed spec fn spec_base_url(&self) -> Seq<char> {
        self.base_url@
    }

    pub closed spec fn spec_username(&self) -> Seq<char> {
        self.username@
    }

    pub closed spec fn spec_password(&self) -> Seq<char> {
        self.password@
    }

    pub fn new(base_url: String, username: String, password: String) -> (r: UnifiSettings)
        ensures
            r.spec_base_url() == base_url@,
            r.spec_username() == username@,
            r.spec_password() == password@,
    {
        UnifiSettings { base_url, username, password }
    }

    pub fn get_base_url(&self) -> (r: &String)
        ensures
            r@ == self.spec_base_url(),
    {
        &self.base_url
    }

    pub fn get_username(&self) -> (r: &String)
        ensures
            r@ == self.spec_username(),
    {
        &self.username
    }

    pub fn get_password(&self) -> (r: &String)
        ensures
            r@ == self.spec_password(),
    {
        &self.password
    }
}

/// The whole configuration of the service.
#[derive(Debug)]
pub struct Settings {
    server: ServerSettings,
    unifi: UnifiSettings,
}

impl Settings {
    /// Assembles a configuration whose server port has passed `validate_port`.
    pub fn from_parts(server: ServerSettings, unifi: UnifiSettings) -> (r: Settings)
        ensures
            r.get_server().spec_address() == server.spec_address(),
            r.get_server().spec_port() == server.spec_port(),
            r.get_unifi().spec_base_url() == unifi.spec_base_url(),
            r.get_unifi().spec_username() == unifi.spec_username(),
            r.get_unifi().spec_password() == unifi.spec_password(),
    {
        Settings { server, unifi }
    }

    #[verifier::when_used_as_spec(spec_server)]
    pub fn get_server(&self) -> (r: &ServerSettings)
        ensures
            r == self.spec_server(),
    {
        &self.server
    }

    #[verifier::when_used_as_spec(spec_unifi)]
    pub fn get_unifi(&self) -> (r: &UnifiSettings)
        ensures
            r == self.spec_unifi(),
    {
        &self.unifi
    }

    pub closed spec fn spec_server(&self) -> &ServerSettings {
        &self.server
    }

    pub closed spec fn spec_unifi(&self) -> &UnifiSettings {
        &self.unifi
    }
}

/// A client for the configured controller, with its credentials.
pub fn client_for(settings: &UnifiSettings) -> (r: crate::client::UnifiApiClient)
    ensures
        r.spec_base_url() == settings.spec_base_url(),
        r.spec_username() == settings.spec_username(),
        r.spec_password() == settings.spec_password(),
        r.spec_headers() == crate::client::default_headers(),
        r.spec_pending() is None,
{
    crate::client::UnifiApiClient::new(
        settings.base_url.clone(),
        settings.username.clone(),
        settings.password.clone(),
    )
}

} // verus!
