//! What the server is started with: the address to listen on, and the routes,
//! that is which endpoint serves which method and path.
//!
//! Binding the listener and running the server is the shell's work. It binds
//! what `bind_address` gives and registers what `endpoints` lists.

use vstd::prelude::*;

verus! {

/// A request method that the service serves.
#[derive(Debug, Clone, Copy, PartialEq, Eq, Structural)]
pub enum Method {
    Get,
    Post,
}

/// An endpoint of the service.
#[derive(Debug, Clone, Copy, PartialEq, Eq, Structural)]
pub enum Endpoint {
    HealthCheck,
    Subscribe,
}

impl Endpoint {
    /// The method under which the endpoint is served.
    pub open spec fn spec_method(self) -> Method {
        match self {
            Endpoint::HealthCheck => Method::Get,
            Endpoint::Subscribe => Method::Post,
        }
    }

    /// The path under which the endpoint is served.
    pub open spec fn spec_path(self) -> Seq<char> {
        match self {
            Endpoint::HealthCheck => "/health_check"@,
            Endpoint::Subscribe => "/subscribe"@,
        }
    }

    /// The method under which the endpoint is served.
    #[verifier::when_used_as_spec(spec_method)]
    pub fn method(self) -> (method: Method)
        ensures
            method == self.spec_method(),
    {
        match self {
            Endpoint::HealthCheck => Method::Get,
            Endpoint::Subscribe => Method::Post,
        }
    }

    /// The path under which the endpoint is served.
    pub fn path(self) -> (path: &'static str)
        ensures
            path@ == self.spec_path(),
    {
        match self {
            Endpoint::HealthCheck => "/health_check",
            Endpoint::Subscribe => "/subscribe",
        }
    }
}

/// The endpoints to register, all of them: the health check and the subscribe
/// form.
pub fn endpoints() -> (table: Vec<Endpoint>)
    ensures
        table@ == seq![Endpoint::HealthCheck, Endpoint::Subscribe],
{
    let mut table: Vec<Endpoint> = Vec::new();
    table.push(Endpoint::HealthCheck);
    table.push(Endpoint::Subscribe);
    table
}

/// The character that writes a decimal digit.
pub open spec fn digit_char(digit: nat) -> char {
    ('0' as nat + digit) as char
}

/// A number written in decimal, without leading zeros.
pub open spec fn decimal(number: nat) -> Seq<char>
    decreases number,
{
    if number < 10 {
        seq![digit_char(number)]
    } else {
        decimal(number / 10).push(digit_char(number % 10))
    }
}

/// The address on which the service listens for a port: the loopback address,
/// a colon, and the port in decimal.
pub open spec fn bind_address_of(port: u16) -> Seq<char> {
    "127.0.0.1:"@ + decimal(port as nat)
}

/// The text of one decimal digit.
fn digit_text(digit: u16) -> (text: &'static str)
    requires
        digit < 10,
    ensures
        text@ == seq![digit_char(digit as nat)],
{
    proof {
        reveal_strlit("0");
        reveal_strlit("1");
        reveal_strlit("2");
        reveal_strlit("3");
        reveal_strlit("4");
        reveal_strlit("5");
        reveal_strlit("6");
        reveal_strlit("7");
        reveal_strlit("8");
        reveal_strlit("9");
    }
    let text = if digit == 0 {
        "0"
    } else if digit == 1 {
        "1"
    } else if digit == 2 {
        "2"
    } else if digit == 3 {
        "3"
    } else if digit == 4 {
        "4"
    } else if digit == 5 {
        "5"
    } else if digit == 6 {
        "6"
    } else if digit == 7 {
        "7"
    } else if digit == 8 {
        "8"
    } else {
        "9"
    };
    text
}

/// Appends a number in decimal to a text.
fn append_decimal(text: &mut String, number: u16)
    ensures
        final(text)@ == old(text)@ + decimal(number as nat),
    decreases number,
{
    if number >= 10 {
        append_decimal(text, number / 10);
    }
    text.append(digit_text(number % 10));
}

/// The address on which the service listens when it is given this port.
pub fn bind_address(port: u16) -> (address: String)
    ensures
        address@ == bind_address_of(port),
{
    let mut address: String = "127.0.0.1:".to_owned();
    append_decimal(&mut address, port);
    address
}

} // verus!
