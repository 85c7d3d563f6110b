//! Settings as they are read at startup: each is a text that may be absent
//! or unreadable, and then has a default.

use crate::text::{decimal, parse_u16, parse_u64, push_decimal, unsigned_value};
use vstd::prelude::*;
use vstd::string::StringExecFns;

verus! {

/// The address that a service listens on unless told otherwise.
pub const DEFAULT_HOST: &'static str = "0.0.0.0";

/// The seconds that a child may run unless told otherwise.
pub const DEFAULT_TIMEOUT: u64 = 60;

/// The text of a setting, or `default` where the setting is absent.
pub open spec fn text_setting(raw: Option<&str>, default: Seq<char>) -> Seq<char> {
    match raw {
        Some(text) => text@,
        None => default,
    }
}

/// The number that a setting writes, or `default` where the setting is
/// absent or does not write a number of at most `max`.
pub open spec fn number_setting(raw: Option<&str>, default: nat, max: nat) -> nat {
    match raw {
        Some(text) => match unsigned_value(text@, max) {
            Some(value) => value,
            None => default,
        },
        None => default,
    }
}

/// The text of a setting, or `default` where the setting is absent.
pub fn text_or(raw: Option<&str>, default: &str) -> (text: String)
    ensures
        text@ == text_setting(raw, default@),
{
    match raw {
        Some(text) => String::from_str(text),
        None => String::from_str(default),
    }
}

/// The port that a setting writes, or `default`.
pub fn port_or(raw: Option<&str>, default: u16) -> (port: u16)
    ensures
        port == number_setting(raw, default as nat, u16::MAX as nat),
{
    match raw {
        Some(text) => match parse_u16(text) {
            Some(port) => port,
            None => default,
        },
        None => default,
    }
}

/// The seconds that a setting writes, or `default`.
pub fn seconds_or(raw: Option<&str>, default: u64) -> (seconds: u64)
    ensures
        seconds == number_setting(raw, default as nat, u64::MAX as nat),
{
    match raw {
        Some(text) => match parse_u64(text) {
            Some(seconds) => seconds,
            None => default,
        },
        None => default,
    }
}

/// The address to listen on: the host, a colon, and the port in base ten.
pub open spec fn address_of(host: Seq<char>, port: u16) -> Seq<char> {
    host + seq![':'] + decimal(port as nat)
}

/// The address to listen on, for the host and the port of a service.
pub fn bind_address(host: &str, port: u16) -> (address: String)
    ensures
        address@ == address_of(host@, port),
{
    let mut address = String::from_str(host);
    address.push(':');
    proof {
        assert(host@.push(':') == host@ + seq![':']);
    }
    push_decimal(&mut address, port as u64);
    address
}

} // verus!
