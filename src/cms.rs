//! The server settings of the CMS: a builder, the settings it resolves to,
//! and the text shown when the server starts.
use vstd::prelude::*;

use crate::env::{get_lily_host, get_lily_port, number_setting, text_setting, DEFAULT_HOST, DEFAULT_PORT};

verus! {

/// The decimal digit for a value below ten.
pub open spec fn digit(d: nat) -> char {
    if d == 0 { '0' }
    else if d == 1 { '1' }
    else if d == 2 { '2' }
    else if d == 3 { '3' }
    else if d == 4 { '4' }
    else if d == 5 { '5' }
    else if d == 6 { '6' }
    else if d == 7 { '7' }
    else if d == 8 { '8' }
    else { '9' }
}

/// The decimal digits of a natural number, without leading zeros.
pub open spec fn nat_text(n: nat) -> Seq<char>
    decreases n,
{
    if n < 10 {
        seq![digit(n)]
    } else {
        nat_text(n / 10).push(digit(n % 10))
    }
}

/// The decimal text of an integer, with a leading `-` when it is negative.
pub open spec fn int_text(n: int) -> Seq<char> {
    if n < 0 {
        seq!['-'] + nat_text((-n) as nat)
    } else {
        nat_text(n as nat)
    }
}

/// Relies on `i32`'s `to_string`: its decimal text.
#[verifier::external_body]
fn i32_text(n: i32) -> (r: String)
    ensures
        r@ == int_text(n as int),
{
    n.to_string()
}

/// The address the server is reached at: `http://host:port`.
pub open spec fn address_text(host: Seq<char>, port: i32) -> Seq<char> {
    "http://"@ + host + ":"@ + int_text(port as int)
}

/// The address the server listens on: `host:port`.
pub open spec fn bind_text(host: Seq<char>, port: i32) -> Seq<char> {
    host + ":"@ + int_text(port as int)
}

/// The settings the server runs with.
pub struct Cms {
    host: String,
    port: i32,
}

/// Collects the settings of the server; those left unset come from the environment.
pub struct CmsBuilder {
    host: Option<String>,
    port: Option<i32>,
}

impl Cms {
    /// The host of the server.
    pub closed spec fn host_view(&self) -> Seq<char> {
        self.host@
    }

    /// The port of the server.
    pub closed spec fn port_view(&self) -> i32 {
        self.port
    }

    /// Starts the settings of a server, with nothing set.
    pub fn new() -> (r: CmsBuilder)
        ensures
            r.host_view() is None,
            r.port_view() is None,
    {
        CmsBuilder::new()
    }

    /// The address the server is reached at: `http://host:port`.
    pub fn get_address(&self) -> (r: String)
        ensures
            r@ == address_text(self.host_view(), self.port_view()),
    {
        let port = i32_text(self.port);
        let r = String::from_str("http://").concat(self.host.as_str()).concat(":").concat(port.as_str());
        r
    }

    /// The address the server listens on: `host:port`.
    pub fn bind_address(&self) -> (r: String)
        ensures
            r@ == bind_text(self.host_view(), self.port_view()),
    {
        let port = i32_text(self.port);
        let r = self.host.clone().concat(":").concat(port.as_str());
        r
    }
}

impl CmsBuilder {
    /// The host that was set, if any.
    pub closed spec fn host_view(&self) -> Option<Seq<char>> {
        match self.host {
            Some(h) => Some(h@),
            None => None,
        }
    }

    /// The port that was set, if any.
    pub closed spec fn port_view(&self) -> Option<i32> {
        self.port
    }

    /// A builder with nothing set.
    pub fn new() -> (r: CmsBuilder)
        ensures
            r.host_view() is None,
            r.port_view() is None,
    {
        CmsBuilder { host: None, port: None }
    }

    /// Sets the host.
    pub fn host(self, host: String) -> (r: CmsBuilder)
        ensures
            r.host_view() == Some(host@),
            r.port_view() == self.port_view(),
    {
        CmsBuilder { host: Some(host), port: self.port }
    }

    /// Sets the port.
    pub fn port(self, port: i32) -> (r: CmsBuilder)
        ensures
            r.host_view() == self.host_view(),
            r.port_view() == Some(port),
    {
        CmsBuilder { host: self.host, port: Some(port) }
    }

    /// Ends the building; the settings are kept as they are.
    pub fn build(self) -> (r: CmsBuilder)
        ensures
            r.host_view() == self.host_view(),
            r.port_view() == self.port_view(),
    {
        self
    }

    /// The settings to serve with: what was set, else what the environment
    /// holds (`env_host`, `env_port`: the contents of `LILY_HOST` and
    /// `LILY_PORT`), else the defaults.
    pub fn settings(self, env_host: Option<String>, env_port: Option<String>) -> (r: Cms)
        ensures
            r.host_view() == match self.host_view() {
                Some(h) => h,
                None => text_setting(env_host, DEFAULT_HOST@),
            },
            r.port_view() == match self.port_view() {
                Some(p) => p,
                None => number_setting(env_port, DEFAULT_PORT),
            },
    {
        let host = match self.host {
            Some(h) => h,
            None => get_lily_host(env_host),
        };
        let port = match self.port {
            Some(p) => p,
            None => get_lily_port(env_port),
        };
        Cms { host, port }
    }
}

/// "LILY CMS" in large letters.
pub const LOGO: &'static str = r#"
88  88  88
88      88
88      88
88  88  88  8b       d8      ,adPPYba,  88,dPYba,,adPYba,   ,adPPYba,
88  88  88  `8b     d8'     a8"     ""  88P'   "88"    "8a  I8[    ""
88  88  88   `8b   d8'      8b          88      88      88   `"Y8ba,
88  88  88    `8b,d8'       "8a,   ,aa  88      88      88  aa    ]8I
88  88  88      Y88'         `"Ybbd8"'  88      88      88  `"YbbdP"'
                d8'
               d8'
"#;

/// The logo shown when the server starts.
pub fn logo() -> (r: &'static str)
    ensures
        r@ == LOGO@,
{
    LOGO
}

/// The text shown when the server starts: the logo, the product id and the
/// address, one per line.
pub fn startup_message(cms: &Cms, product_id: &str) -> (r: String)
    ensures
        r@ == LOGO@ + "\n"@ + product_id@ + "\n"@ + address_text(cms.host_view(), cms.port_view()),
{
    let address = cms.get_address();
    let r = String::from_str(logo()).concat("\n").concat(product_id).concat("\n").concat(
        address.as_str(),
    );
    r
}

} // verus!
