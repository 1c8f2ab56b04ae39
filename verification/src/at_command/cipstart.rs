use vstd::prelude::*;
use embassy_time::Duration;
use super::{AtRequest, CommandGroup, GenericOk, RequestType};
use crate::out::{decimal, push_decimal};

verus! {

#[derive(Debug, Clone, Copy, PartialEq, Eq)]
pub enum ConnectMode {
    Tcp,
    Udp,
}

/// AT+CIPSTART=...
#[derive(Debug)]
pub struct Connect {
    /// Which connection slot to use (Multi-IP mode)
    pub number: usize,
    /// TCP or UDP
    pub mode: ConnectMode,
    /// IP or domain name
    pub destination: String,
    pub port: u16,
}

pub open spec fn spec_connect_mode_name(m: ConnectMode) -> Seq<char> {
    match m {
        ConnectMode::Tcp => "TCP"@,
        ConnectMode::Udp => "UDP"@,
    }
}

impl AtRequest for Connect {
    type Response = GenericOk;

    open spec fn spec_encode(&self) -> Seq<char> {
        "+CIPSTART="@ + decimal(self.number as nat) + ",\""@ + spec_connect_mode_name(self.mode) + "\",\""@
            + self.destination@ + "\",\""@ + decimal(self.port as nat) + "\""@
    }

    open spec fn spec_request_type() -> RequestType {
        RequestType::Command(CommandGroup::Extended)
    }

    fn request_type() -> (t: RequestType) {
        RequestType::Command(CommandGroup::Extended)
    }

    fn encode(&self) -> (s: String) {
        let mut s = String::new();
        s.append("+CIPSTART=");
        push_decimal(&mut s, self.number as u64);
        s.append(",\"");
        match self.mode {
            ConnectMode::Tcp => s.append("TCP"),
            ConnectMode::Udp => s.append("UDP"),
        }
        s.append("\",\"");
        s.append(self.destination.as_str());
        s.append("\",\"");
        push_decimal(&mut s, self.port as u64);
        s.append("\"");
        s
    }

    fn default_timeout() -> (t: Option<Duration>) {
        None
    }
}

/// A connection request names the protocol it asks for: `TCP` for a TCP connection and
/// `UDP` for a UDP one, between the slot number and the quoted destination and port.
pub proof fn law_connect_names_protocol(c: Connect)
    ensures
        c.spec_encode() == "+CIPSTART="@ + decimal(c.number as nat) + ",\""@ + (if c.mode
            == ConnectMode::Tcp {
            "TCP"@
        } else {
            "UDP"@
        }) + "\",\""@ + c.destination@ + "\",\""@ + decimal(c.port as nat) + "\""@,
{
}

} // verus!
