//! The gateway's configuration: where it binds, how it schedules its work,
//! and whether and where it forwards what the resolver does not have.

use crate::message::text_of;
use vstd::prelude::*;

verus! {

/// How connections are served. The choice is made when the gateway is built
/// and holds for as long as it runs.
#[derive(Clone, Copy, Debug, PartialEq, Eq, Structural)]
pub enum Scheduling {
    /// One dedicated thread serves the requests one after the other.
    Blocking,
    /// Each connection is served by a task of its own on a shared scheduler.
    Multiplexed,
}

/// The decimal digit for a value below ten.
pub open spec fn digit_char(d: nat) -> char {
    if d == 0 {
        '0'
    } else if d == 1 {
        '1'
    } else if d == 2 {
        '2'
    } else if d == 3 {
        '3'
    } else if d == 4 {
        '4'
    } else if d == 5 {
        '5'
    } else if d == 6 {
        '6'
    } else if d == 7 {
        '7'
    } else if d == 8 {
        '8'
    } else {
        '9'
    }
}

/// The decimal numeral of `n`, without leading zeros.
pub open spec fn decimal(n: nat) -> Seq<char>
    decreases n,
{
    if n < 10 {
        seq![digit_char(n)]
    } else {
        decimal(n / 10).push(digit_char(n % 10))
    }
}

/// The host that is bound where none was chosen.
pub open spec fn default_host(scheduling: Scheduling) -> Seq<char> {
    match scheduling {
        Scheduling::Blocking => "localhost"@,
        Scheduling::Multiplexed => "127.0.0.1"@,
    }
}

/// The text `host:port`.
pub open spec fn address_text(host: Seq<char>, port: u16) -> Seq<char> {
    host + seq![':'] + decimal(port as nat)
}

fn digit_text(d: u16) -> (text: &'static str)
    requires
        d < 10,
    ensures
        text@ == seq![digit_char(d as nat)],
{
    proof {
        reveal_strlit("0");
        reveal_strlit("1");
        reveal_strlit("2");
        reveal_strlit("3");
        reveal_strlit("4");
        reveal_strlit("5");
        reveal_strlit("6");
        reveal_strlit("7");
        reveal_strlit("8");
        reveal_strlit("9");
    }
    let text = if d == 0 {
        "0"
    } else if d == 1 {
        "1"
    } else if d == 2 {
        "2"
    } else if d == 3 {
        "3"
    } else if d == 4 {
        "4"
    } else if d == 5 {
        "5"
    } else if d == 6 {
        "6"
    } else if d == 7 {
        "7"
    } else if d == 8 {
        "8"
    } else {
        "9"
    };
    text
}

/// The decimal numeral of a port number.
pub fn port_text(port: u16) -> (text: String)
    ensures
        text@ == decimal(port as nat),
    decreases port,
{
    if port < 10 {
        digit_text(port).to_owned()
    } else {
        port_text(port / 10).concat(digit_text(port % 10))
    }
}

/// Collects the choices from which a gateway is configured.
#[derive(Debug)]
pub struct Builder {
    port: u16,
    host: Option<String>,
    scheduling: Scheduling,
}

/// What a `Builder` holds, as plain values.
pub struct BuilderView {
    pub port: u16,
    pub host: Option<Seq<char>>,
    pub scheduling: Scheduling,
}

impl View for Builder {
    type V = BuilderView;

    closed spec fn view(&self) -> BuilderView {
        BuilderView { port: self.port, host: text_of(self.host), scheduling: self.scheduling }
    }
}

impl BuilderView {
    /// The host that will be bound: the chosen one, or the default.
    pub open spec fn bind_host(self) -> Seq<char> {
        match self.host {
            Some(host) => host,
            None => default_host(self.scheduling),
        }
    }
}

impl Builder {
    /// A builder for a gateway on `port`, with no host chosen and each
    /// connection served by a task of its own.
    pub fn new(port: u16) -> (r: Self)
        ensures
            r@ == (BuilderView { port, host: None, scheduling: Scheduling::Multiplexed }),
    {
        Builder { port, host: None, scheduling: Scheduling::Multiplexed }
    }

    /// Chooses the host to bind.
    pub fn host(self, host: &str) -> (r: Self)
        ensures
            r@ == (BuilderView { host: Some(host@), ..self@ }),
    {
        Builder { port: self.port, host: Some(host.to_owned()), scheduling: self.scheduling }
    }

    /// Chooses how connections are served.
    pub fn scheduling(self, scheduling: Scheduling) -> (r: Self)
        ensures
            r@ == (BuilderView { scheduling, ..self@ }),
    {
        Builder { port: self.port, host: self.host, scheduling }
    }

    /// Fixes the configuration, with the dev-mode flag and the dev server's
    /// base URL as the hosting application reports them.
    pub fn build(self, dev_mode: bool, dev_url: Option<String>) -> (config: GatewayConfig)
        ensures
            config@ == (GatewayConfigView {
                host: self@.bind_host(),
                port: self@.port,
                scheduling: self@.scheduling,
                dev_mode,
                dev_url: text_of(dev_url),
            }),
    {
        let host = match self.host {
            Some(host) => host,
            None => match self.scheduling {
                Scheduling::Blocking => "localhost".to_owned(),
                Scheduling::Multiplexed => "127.0.0.1".to_owned(),
            },
        };
        GatewayConfig { host, port: self.port, scheduling: self.scheduling, dev_mode, dev_url }
    }
}

/// The configuration of a running gateway. It never changes.
#[derive(Debug)]
pub struct GatewayConfig {
    host: String,
    port: u16,
    scheduling: Scheduling,
    dev_mode: bool,
    dev_url: Option<String>,
}

/// What a `GatewayConfig` holds, as plain values.
pub struct GatewayConfigView {
    pub host: Seq<char>,
    pub port: u16,
    pub scheduling: Scheduling,
    pub dev_mode: bool,
    pub dev_url: Option<Seq<char>>,
}

impl GatewayConfigView {
    /// The dev server's base URL, where requests may be forwarded at all:
    /// dev mode is on and a base URL is configured.
    pub open spec fn proxy_base(self) -> Option<Seq<char>> {
        if self.dev_mode {
            self.dev_url
        } else {
            None
        }
    }
}

impl View for GatewayConfig {
    type V = GatewayConfigView;

    closed spec fn view(&self) -> GatewayConfigView {
        GatewayConfigView {
            host: self.host@,
            port: self.port,
            scheduling: self.scheduling,
            dev_mode: self.dev_mode,
            dev_url: text_of(self.dev_url),
        }
    }
}

impl GatewayConfig {
    /// The host to bind.
    pub fn host(&self) -> (r: &str)
        ensures
            r@ == self@.host,
    {
        self.host.as_str()
    }

    /// The port to bind.
    pub fn port(&self) -> (r: u16)
        ensures
            r == self@.port,
    {
        self.port
    }

    /// How connections are served.
    pub fn scheduling(&self) -> (r: Scheduling)
        ensures
            r == self@.scheduling,
    {
        self.scheduling
    }

    /// Whether the hosting application runs in dev mode.
    pub fn dev_mode(&self) -> (r: bool)
        ensures
            r == self@.dev_mode,
    {
        self.dev_mode
    }

    /// The dev server's base URL, where one is configured.
    pub fn dev_url(&self) -> (r: Option<&str>)
        ensures
            match r {
                Some(url) => self@.dev_url == Some(url@),
                None => self@.dev_url is None,
            },
    {
        match &self.dev_url {
            Some(url) => Some(url.as_str()),
            None => None,
        }
    }

    /// The dev server's base URL, where requests may be forwarded at all.
    pub fn proxy_base(&self) -> (r: Option<&str>)
        ensures
            match r {
                Some(url) => self@.proxy_base() == Some(url@),
                None => self@.proxy_base() is None,
            },
    {
        if self.dev_mode {
            self.dev_url()
        } else {
            None
        }
    }

    /// The address to bind, as the text `host:port`.
    pub fn bind_address(&self) -> (address: String)
        ensures
            address@ == address_text(self@.host, self@.port),
    {
        let address = self.host.clone().concat(":").concat(port_text(self.port).as_str());
        proof {
            reveal_strlit(":");
        }
        address
    }
}

} // verus!
