//! The status a launcher reports to its frontend.

use vstd::prelude::*;

verus! {

/// The mathematical value of a [`RelayStatus`].
#[verifier::ext_equal]
pub ghost struct StatusV {
    pub running: bool,
    pub port: u16,
    pub message: Seq<char>,
    pub data_dir: Option<Seq<char>>,
    pub config_file: Option<Seq<char>>,
}

/// What the launcher tells its frontend about the relay: whether it runs, on
/// which port, a human-readable message, and where its data and configuration
/// file live when known.
#[derive(Debug)]
pub struct RelayStatus {
    pub running: bool,
    pub port: u16,
    pub message: String,
    pub data_dir: Option<String>,
    pub config_file: Option<String>,
}

impl View for RelayStatus {
    type V = StatusV;

    open spec fn view(&self) -> StatusV {
        StatusV {
            running: self.running,
            port: self.port,
            message: self.message@,
            data_dir: match self.data_dir {
                Some(d) => Some(d@),
                None => None,
            },
            config_file: match self.config_file {
                Some(f) => Some(f@),
                None => None,
            },
        }
    }
}

/// The status before anything was started: stopped, on the default port.
pub open spec fn default_status_v() -> StatusV {
    StatusV { running: false, port: 8080, message: "Stopped"@, data_dir: None, config_file: None }
}

impl Default for RelayStatus {
    fn default() -> (s: Self)
        ensures
            s@ == default_status_v(),
    {
        RelayStatus {
            running: false,
            port: 8080,
            message: "Stopped".to_owned(),
            data_dir: None,
            config_file: None,
        }
    }
}

/// The value of an optional status, for contracts over `Option<RelayStatus>`.
pub open spec fn status_opt_v(o: &Option<RelayStatus>) -> Option<StatusV> {
    match o {
        Some(s) => Some(s@),
        None => None,
    }
}

/// The value of a status-or-message result, for contracts over
/// `Result<RelayStatus, String>`.
pub open spec fn status_result_v(r: &Result<RelayStatus, String>) -> Result<StatusV, Seq<char>> {
    match r {
        Ok(s) => Ok(s@),
        Err(e) => Err(e@),
    }
}

/// The value of an optional message, for contracts over `Option<String>`.
pub open spec fn message_opt_v(o: &Option<String>) -> Option<Seq<char>> {
    match o {
        Some(m) => Some(m@),
        None => None,
    }
}

} // verus!
