//! The commands the plugin offers, and what each makes of its arguments
//! before any socket is opened.
use vstd::prelude::*;
use crate::endpoint::{is_port, Endpoint};
use crate::error::{SocketError, Step};
use crate::payload::{input_bytes, input_payload, PipelineValue};
use crate::timeout::{effective_timeout, resolve_timeout, timeout_as_unsigned, wrapped_nanos};

verus! {

/// The plugin, holding the `socket` commands.
pub struct SocketPlugin;

/// `socket connect`: send a payload to a remote endpoint and return its reply.
pub struct Connect;

/// `socket listen`: serve connections with a callback.
pub struct Listen;

/// The transport a client uses.
#[derive(Clone, Copy, Debug, PartialEq, Eq, Structural)]
pub enum Protocol {
    Tcp,
    Udp,
}

/// Everything one client call needs, checked and resolved.
#[derive(Debug)]
pub struct ConnectPlan {
    pub endpoint: Endpoint,
    pub protocol: Protocol,
    pub timeout_nanos: u64,
    pub payload: Vec<u8>,
}

/// Everything one server run needs, checked.
#[derive(Debug)]
pub struct ListenPlan {
    pub endpoint: Endpoint,
    pub single_shot: bool,
}

impl Connect {
    /// Checks the arguments of a client call: the port must be in range and
    /// the input a string, a binary value or nothing. The timeout is the
    /// per-call one, else the configured one, else the default.
    pub fn plan(
        &self,
        host: String,
        port: i64,
        use_udp: bool,
        timeout_flag: Option<i64>,
        configured_timeout: Option<i64>,
        input: PipelineValue,
    ) -> (r: Result<ConnectPlan, SocketError>)
        ensures
            !is_port(port as int) ==> r is Err && r->Err_0.step == Step::InvalidPort,
            is_port(port as int) && input_bytes(input) is None ==> r is Err && r->Err_0.step
                == Step::UnsupportedInput && r->Err_0.cause@ == input->Other_0@,
            is_port(port as int) && input_bytes(input) is Some <==> r is Ok,
            r is Ok ==> {
                let p = r->Ok_0;
                &&& p.endpoint.host@ == host@
                &&& p.endpoint.port as int == port as int
                &&& p.protocol == (if use_udp {
                    Protocol::Udp
                } else {
                    Protocol::Tcp
                })
                &&& p.timeout_nanos as int == wrapped_nanos(
                    effective_timeout(timeout_flag, configured_timeout),
                )
                &&& p.payload@ == input_bytes(input)->Some_0
            },
    {
        let endpoint = match Endpoint::new(host, port) {
            Ok(e) => e,
            Err(e) => return Err(e),
        };
        let protocol = if use_udp {
            Protocol::Udp
        } else {
            Protocol::Tcp
        };
        let timeout_nanos = timeout_as_unsigned(resolve_timeout(timeout_flag, configured_timeout));
        match input_payload(input) {
            Ok(payload) => Ok(ConnectPlan { endpoint, protocol, timeout_nanos, payload }),
            Err(e) => Err(e),
        }
    }
}

impl Listen {
    /// Checks the arguments of a server run: the port must be in range.
    pub fn plan(&self, host: String, port: i64, single_shot: bool) -> (r: Result<
        ListenPlan,
        SocketError,
    >)
        ensures
            is_port(port as int) <==> r is Ok,
            r is Err ==> r->Err_0.step == Step::InvalidPort,
            r is Ok ==> r->Ok_0.endpoint.host@ == host@ && r->Ok_0.endpoint.port as int
                == port as int && r->Ok_0.single_shot == single_shot,
    {
        match Endpoint::new(host, port) {
            Ok(endpoint) => Ok(ListenPlan { endpoint, single_shot }),
            Err(e) => Err(e),
        }
    }
}

} // verus!
