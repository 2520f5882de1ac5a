//! What the application needs to know before it can listen.

use crate::configuration::ApplicationConfiguration;
use vstd::prelude::*;
use vstd::string::StringExecFns;

verus! {

/// The address under which visitors reach the application from outside.
pub struct ApplicationBaseUrl(pub String);

/// The decimal digit for a number below ten.
pub open spec fn digit(d: nat) -> char {
    if d == 0 {
        '0'
    } else if d == 1 {
        '1'
    } else if d == 2 {
        '2'
    } else if d == 3 {
        '3'
    } else if d == 4 {
        '4'
    } else if d == 5 {
        '5'
    } else if d == 6 {
        '6'
    } else if d == 7 {
        '7'
    } else if d == 8 {
        '8'
    } else {
        '9'
    }
}

/// A number written in decimal, without sign or leading zeros.
pub open spec fn decimal(n: nat) -> Seq<char>
    decreases n,
{
    if n < 10 {
        seq![digit(n)]
    } else {
        decimal(n / 10) + seq![digit(n % 10)]
    }
}

/// The address to listen on: the host, a colon, the port in decimal.
pub open spec fn address_of(host: Seq<char>, port: u16) -> Seq<char> {
    host + ":"@ + decimal(port as nat)
}

fn digit_text(d: u16) -> (text: &'static str)
    requires
        d < 10,
    ensures
        text@ == seq![digit(d as nat)],
{
    proof {
        reveal_strlit("0");
        reveal_strlit("1");
        reveal_strlit("2");
        reveal_strlit("3");
        reveal_strlit("4");
        reveal_strlit("5");
        reveal_strlit("6");
        reveal_strlit("7");
        reveal_strlit("8");
        reveal_strlit("9");
    }
    let text = if d == 0 {
        "0"
    } else if d == 1 {
        "1"
    } else if d == 2 {
        "2"
    } else if d == 3 {
        "3"
    } else if d == 4 {
        "4"
    } else if d == 5 {
        "5"
    } else if d == 6 {
        "6"
    } else if d == 7 {
        "7"
    } else if d == 8 {
        "8"
    } else {
        "9"
    };
    assert(text@ =~= seq![digit(d as nat)]);
    text
}

/// Writes a port number in decimal.
pub fn port_text(port: u16) -> (text: String)
    ensures
        text@ == decimal(port as nat),
    decreases port,
{
    if port < 10 {
        String::from_str(digit_text(port))
    } else {
        let mut text = port_text(port / 10);
        text.append(digit_text(port % 10));
        text
    }
}

/// The address the application listens on, as the configuration gives it.
pub fn listen_address<S>(application: &ApplicationConfiguration<S>) -> (address: String)
    ensures
        address@ == address_of(application.host@, application.port),
{
    let mut address = application.host.clone();
    address.append(":");
    let port = port_text(application.port);
    address.append(port.as_str());
    address
}

} // verus!
