//! Relay settings and the generated relay configuration file.

use vstd::prelude::*;
use vstd::string::StringExecFns;

use crate::text::dec_rep;
use crate::text::dec_string;

verus! {

/// The mathematical value of a [`RelayConfig`].
#[verifier::ext_equal]
pub ghost struct RelayConfigV {
    pub port: u16,
    pub data_directory: Seq<char>,
    pub max_conn: u32,
    pub relay_name: Seq<char>,
    pub relay_description: Seq<char>,
}

/// Settings of the supervised relay: the port it listens on, where it keeps
/// its data, its connection cap, and how it introduces itself.
#[derive(Debug)]
pub struct RelayConfig {
    pub port: u16,
    pub data_directory: String,
    pub max_conn: u32,
    pub relay_name: String,
    pub relay_description: String,
}

impl View for RelayConfig {
    type V = RelayConfigV;

    open spec fn view(&self) -> RelayConfigV {
        RelayConfigV {
            port: self.port,
            data_directory: self.data_directory@,
            max_conn: self.max_conn,
            relay_name: self.relay_name@,
            relay_description: self.relay_description@,
        }
    }
}

/// The settings a launcher starts with before anyone updates them.
pub open spec fn default_config_v() -> RelayConfigV {
    RelayConfigV {
        port: 8080,
        data_directory: "./relay_data"@,
        max_conn: 128,
        relay_name: "Privacy Lion Relay"@,
        relay_description: "A Privacy Lion relay for decentralized data sharing."@,
    }
}

impl Default for RelayConfig {
    fn default() -> (c: Self)
        ensures
            c@ == default_config_v(),
    {
        RelayConfig {
            port: 8080,
            data_directory: "./relay_data".to_owned(),
            max_conn: 128,
            relay_name: "Privacy Lion Relay".to_owned(),
            relay_description: "A Privacy Lion relay for decentralized data sharing.".to_owned(),
        }
    }
}

impl RelayConfig {
    /// An owned copy with the same value.
    pub fn duplicate(&self) -> (c: Self)
        ensures
            c@ == self@,
    {
        RelayConfig {
            port: self.port,
            data_directory: self.data_directory.clone(),
            max_conn: self.max_conn,
            relay_name: self.relay_name.clone(),
            relay_description: self.relay_description.clone(),
        }
    }
}

/// The full text of the relay configuration file generated for settings `c`,
/// with the relay's data kept under `data_dir`.
pub open spec fn config_text_spec(c: RelayConfigV, data_dir: Seq<char>) -> Seq<char> {
    "# Privacy Lion Relay Configuration\n[info]\nrelay_url = \"ws://localhost:"@
        + dec_rep(c.port as nat) + "/\"\nname = \""@ + c.relay_name + "\"\ndescription = \""@
        + c.relay_description + "\"\n\n[database]\ndata_directory = \""@ + data_dir
        + "\"\n\n[network]\nport = "@ + dec_rep(c.port as nat)
        + "\naddress = \"0.0.0.0\"\nremote_ip_header = \"x-forwarded-for\"\n\n[limits]\nmax_conn = "@
        + dec_rep(c.max_conn as nat)
        + "\nmax_subs_per_client = 20\nmax_filters_per_sub = 10\nmax_limit = 5000\nmax_event_bytes = 65536\nmax_ws_message_bytes = 65536\nmax_ws_frame_bytes = 65536\n\n[retention]\n# Keep events for 24 hours by default (86400 seconds)\n# Set to 0 for unlimited retention\nmax_seconds = 86400\n\n[logging]\n# Logging will be handled by Privacy Lion\n"@
}

/// Builds the relay configuration file for settings `c`, pointing its
/// database at `data_dir`.
pub fn config_file_text(c: &RelayConfig, data_dir: &str) -> (s: String)
    ensures
        s@ == config_text_spec(c@, data_dir@),
{
    let port = dec_string(c.port as u64);
    let max_conn = dec_string(c.max_conn as u64);
    let mut s =
        "# Privacy Lion Relay Configuration\n[info]\nrelay_url = \"ws://localhost:".to_owned();
    s.append(port.as_str());
    s.append("/\"\nname = \"");
    s.append(c.relay_name.as_str());
    s.append("\"\ndescription = \"");
    s.append(c.relay_description.as_str());
    s.append("\"\n\n[database]\ndata_directory = \"");
    s.append(data_dir);
    s.append("\"\n\n[network]\nport = ");
    s.append(port.as_str());
    s.append(
        "\naddress = \"0.0.0.0\"\nremote_ip_header = \"x-forwarded-for\"\n\n[limits]\nmax_conn = ",
    );
    s.append(max_conn.as_str());
    s.append(
        "\nmax_subs_per_client = 20\nmax_filters_per_sub = 10\nmax_limit = 5000\nmax_event_bytes = 65536\nmax_ws_message_bytes = 65536\nmax_ws_frame_bytes = 65536\n\n[retention]\n# Keep events for 24 hours by default (86400 seconds)\n# Set to 0 for unlimited retention\nmax_seconds = 86400\n\n[logging]\n# Logging will be handled by Privacy Lion\n",
    );
    s
}

/// The generated configuration file is a function of the settings and the
/// data directory alone: equal inputs give the same text, byte for byte.
pub proof fn lemma_config_text_deterministic(
    c1: RelayConfigV,
    c2: RelayConfigV,
    d1: Seq<char>,
    d2: Seq<char>,
)
    requires
        c1 == c2,
        d1 == d2,
    ensures
        config_text_spec(c1, d1) == config_text_spec(c2, d2),
{
}

} // verus!
