//! PDP context configuration.
use vstd::prelude::*;
use embassy_time::Duration;
use super::{AtRequest, CommandGroup, GenericOk, RequestType};

verus! {

/// AT+CNCFG=...
#[derive(Debug)]
pub struct PdpConfigure {
    /// The maximum length of an APN is 63 octets (bytes).
    pub apn: String,
    /// At most 50 bytes.
    pub username: String,
    /// At most 50 bytes.
    pub password: String,
}

impl AtRequest for PdpConfigure {
    type Response = GenericOk;

    /// With credentials: `+CNCFG=0,0,"<apn>","<user>","<password>",3`;
    /// without: `+CNCFG=0,0,"<apn>"`.
    open spec fn spec_encode(&self) -> Seq<char> {
        if self.username@.len() > 0 || self.password@.len() > 0 {
            "+CNCFG=0,0,\""@ + self.apn@ + "\",\""@ + self.username@ + "\",\""@ + self.password@
                + "\",3"@
        } else {
            "+CNCFG=0,0,\""@ + self.apn@ + "\""@
        }
    }

    open spec fn spec_request_type() -> RequestType {
        RequestType::Command(CommandGroup::Extended)
    }

    fn request_type() -> (t: RequestType) {
        RequestType::Command(CommandGroup::Extended)
    }

    fn encode(&self) -> (s: String) {
        let mut s = String::new();
        s.append("+CNCFG=0,0,\"");
        s.append(self.apn.as_str());
        if self.username.as_str().unicode_len() > 0 || self.password.as_str().unicode_len() > 0 {
            s.append("\",\"");
            s.append(self.username.as_str());
            s.append("\",\"");
            s.append(self.password.as_str());
            s.append("\",3");
        } else {
            s.append("\"");
        }
        s
    }

    fn default_timeout() -> (t: Option<Duration>) {
        None
    }
}

} // verus!
