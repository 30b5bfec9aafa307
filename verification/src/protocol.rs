//! The stream protocol forwarding streams are negotiated with.
use vstd::prelude::*;
use crate::held::proxy_protocol_try_from_owned;
use crate::config::ConfigError;

pub use crate::held::ProxyProtocol;

verus! {

/// A stream protocol name is valid when it starts with a forward slash.
pub open spec fn is_protocol_name(text: Seq<char>) -> bool {
    text.len() > 0 && text[0] == '/'
}

impl ProxyProtocol {
    /// Builds the protocol named `name`; refused when the name does not
    /// start with `/`.
    pub fn new(name: String) -> (res: Result<ProxyProtocol, ConfigError>)
        ensures
            res is Ok <==> is_protocol_name(name@),
            match res {
                Ok(p) => p@ == name@,
                Err(e) => e == ConfigError::InvalidProtocol,
            },
    {
        match proxy_protocol_try_from_owned(name) {
            Ok(p) => Ok(p),
            Err(_) => Err(ConfigError::InvalidProtocol),
        }
    }
}

} // verus!
