//! What the server is started with: the address it listens on and the
//! features it offers.
use vstd::prelude::*;

use crate::number::{parse_u16, parse_u16_spec};
use crate::text::{find_last, last_index, lemma_last_index, substring, tail, to_chars};

verus! {

/// The address the server listens on: `<ip>:<port>`.
#[derive(Debug, Clone, Default, PartialEq, Eq)]
pub struct ListenAddr {
    pub ip: String,
    pub port: u16,
}

/// Why a listen address cannot be read.
#[derive(Debug, Clone, PartialEq, Eq)]
pub enum AddrError {
    /// There is no `:` to separate the port from the ip.
    Format,
    /// What follows the last `:` is not a port number.
    Port { port: String },
}

impl ListenAddr {
    /// Reads `<ip>:<port>`: the port is what follows the last `:`, the ip
    /// what precedes it.
    pub fn parse(value: &str) -> (r: Result<ListenAddr, AddrError>)
        ensures
            ({
                let i = last_index(value@, ':');
                match r {
                    Ok(a) => i >= 0 && a.ip@ == value@.take(i) && parse_u16_spec(value@.skip(i + 1))
                        == Some(a.port),
                    Err(AddrError::Format) => i < 0,
                    Err(AddrError::Port { port }) => i >= 0 && port@ == value@.skip(i + 1)
                        && parse_u16_spec(port@) is None,
                }
            }),
    {
        let v = to_chars(value);
        let Some(i) = find_last(&v, ':') else {
            return Err(AddrError::Format);
        };
        proof {
            lemma_last_index(v@, ':');
        }
        assert(i < v.len());
        let rest = tail(&v, i + 1);
        let port_text = crate::text::from_chars(rest.as_slice());
        let ip = substring(&v, 0, i);
        assert(v@.take(i as int) == v@.subrange(0, i as int));
        match parse_u16(port_text.as_str()) {
            Some(port) => Ok(ListenAddr { ip, port }),
            None => Err(AddrError::Port { port: port_text }),
        }
    }

    /// The ip and the port.
    pub fn into_parts(self) -> (r: (String, u16))
        ensures
            r == (self.ip, self.port),
    {
        (self.ip, self.port)
    }
}

/// What a session may do.
#[derive(Debug, Clone, Copy, PartialEq, Eq, Structural)]
pub enum Features {
    Pty,
    IngressTunnel,
    EgressTunnel,
    Sftp,
}

/// Whether `feature` is among those enabled.
pub fn enabled(features: &Vec<Features>, feature: Features) -> (b: bool)
    ensures
        b == features@.contains(feature),
{
    let mut i: usize = 0;
    while i < features.len()
        invariant
            i <= features.len(),
            forall|k: int| 0 <= k < i ==> features@[k] != feature,
        decreases features.len() - i,
    {
        if features[i] == feature {
            assert(features@[i as int] == feature);
            return true;
        }
        i = i + 1;
    }
    false
}

} // verus!
