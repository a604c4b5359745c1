//! Interpreting the liveness probe and building the relay's addresses.
//!
//! The probe itself — an HTTP GET against `localhost:<port>` with a short
//! timeout — is network work and happens outside the library. What comes
//! back, or the fact that nothing came back, is handed in as plain values and
//! interpreted here.

use vstd::prelude::*;
use vstd::string::StringExecFns;

use crate::text::contains_seq;
use crate::text::dec_rep;
use crate::text::dec_string;
use crate::text::str_contains;

verus! {

/// The mathematical value of a [`ProbeOutcome`].
pub ghost enum ProbeV {
    /// The relay answered and the answer identifies a relay.
    Responding,
    /// The relay answered, but nothing in the answer identifies a relay.
    NotResponding,
    /// The probe itself failed (timeout, connection refused), with the
    /// transport's message.
    Failed(Seq<char>),
}

/// What a liveness probe found out about the relay.
#[derive(Debug)]
pub enum ProbeOutcome {
    /// The relay answered and the answer identifies a relay.
    Responding,
    /// The relay answered, but nothing in the answer identifies a relay.
    NotResponding,
    /// The probe itself failed (timeout, connection refused), with the
    /// transport's message.
    Failed(String),
}

impl View for ProbeOutcome {
    type V = ProbeV;

    open spec fn view(&self) -> ProbeV {
        match self {
            ProbeOutcome::Responding => ProbeV::Responding,
            ProbeOutcome::NotResponding => ProbeV::NotResponding,
            ProbeOutcome::Failed(m) => ProbeV::Failed(m@),
        }
    }
}

/// The value of an optional probe outcome, for contracts over
/// `Option<ProbeOutcome>`.
pub open spec fn probe_opt_v(o: &Option<ProbeOutcome>) -> Option<ProbeV> {
    match o {
        Some(p) => Some(p@),
        None => None,
    }
}

/// A probe response counts as a live relay: either the body names the relay
/// (the stock greeting, or the word `nostr` anywhere), or the HTTP status
/// was a success.
pub open spec fn probe_success_spec(status_success: bool, body: Seq<char>) -> bool {
    contains_seq(body, "Please use a Nostr client to connect"@) || contains_seq(body, "nostr"@)
        || status_success
}

/// Decides from a probe's HTTP status and body whether the relay is live.
pub fn probe_indicates_running(status_success: bool, body: &str) -> (r: bool)
    ensures
        r == probe_success_spec(status_success, body@),
{
    str_contains(body, "Please use a Nostr client to connect") || str_contains(body, "nostr")
        || status_success
}

/// The address the probe and the browser are pointed at.
pub open spec fn http_url_spec(port: u16) -> Seq<char> {
    "http://localhost:"@ + dec_rep(port as nat)
}

/// Builds `http://localhost:<port>`.
pub fn relay_http_url(port: u16) -> (s: String)
    ensures
        s@ == http_url_spec(port),
{
    let mut s = "http://localhost:".to_owned();
    let p = dec_string(port as u64);
    s.append(p.as_str());
    s
}

/// The mathematical value of a [`HealthCheck`].
#[verifier::ext_equal]
pub ghost struct HealthV {
    pub relay_online: bool,
    pub port_accessible: bool,
    pub message: Seq<char>,
}

/// What a health check reports: whether the relay answers as a relay,
/// whether its port accepts connections at all, and a human-readable
/// message.
#[derive(Debug)]
pub struct HealthCheck {
    pub relay_online: bool,
    pub port_accessible: bool,
    pub message: String,
}

impl View for HealthCheck {
    type V = HealthV;

    open spec fn view(&self) -> HealthV {
        HealthV {
            relay_online: self.relay_online,
            port_accessible: self.port_accessible,
            message: self.message@,
        }
    }
}

/// What a health check reports, from whether a connection to the port was
/// accepted and what the liveness probe found.
pub open spec fn health_spec(port_accessible: bool, probe: ProbeV) -> HealthV {
    HealthV {
        relay_online: probe is Responding,
        port_accessible: port_accessible,
        message: if probe is Responding {
            "Relay is online"@
        } else if port_accessible {
            "Port is open but the relay is not responding"@
        } else {
            "Relay is offline"@
        },
    }
}

/// Builds the health-check result from the two probes' findings.
pub fn health_report(port_accessible: bool, probe: &ProbeOutcome) -> (h: HealthCheck)
    ensures
        h@ == health_spec(port_accessible, probe@),
{
    match probe {
        ProbeOutcome::Responding => HealthCheck {
            relay_online: true,
            port_accessible,
            message: "Relay is online".to_owned(),
        },
        _ => HealthCheck {
            relay_online: false,
            port_accessible,
            message: if port_accessible {
                "Port is open but the relay is not responding".to_owned()
            } else {
                "Relay is offline".to_owned()
            },
        },
    }
}

/// How long a spawned relay is given to settle before the first probe,
/// in milliseconds.
pub const SETTLE_DELAY_MS: u64 = 3000;

/// How long a probe may wait for an answer, in seconds.
pub const PROBE_TIMEOUT_SECS: u64 = 5;

} // verus!
