//! The agent: what it tells the coordinator of itself, how it reaches the
//! coordinator, and where each task that comes in goes.

pub mod handlers;
pub mod ping;

use crate::schema::{Metadata, MetadataView, Task, TaskData, TaskDataView};
use vstd::prelude::*;

verus! {

/// Seconds between two transport keepalive pings, and the seconds to wait for
/// the answer to one.
pub const KEEPALIVE_SECS: u64 = 180;

/// The longest message, in bytes, that is sent or received: 100 MiB.
pub const MAX_MESSAGE_LEN: i32 = 100 * 1024 * 1024;

/// The name under which the handler that sends echo requests is kept.
pub const PING_OUTBOUND: &'static str = "ping_outbound";

/// The name under which the handler that captures echo replies is kept.
pub const PING_INBOUND: &'static str = "ping_inbound";

/// What an agent is started with.
pub struct ClientConfig<'a> {
    /// Host and port of the coordinator.
    pub grpc_host: &'a str,
    /// The name that the agent reports of itself.
    pub client_hostname: &'a str,
    /// The root certificate to check the coordinator against, if any.
    pub certificate: Option<Vec<u8>>,
}

/// How the agent reaches the coordinator.
#[derive(Debug)]
pub enum Transport {
    /// Over TLS, with the coordinator checked against this root certificate.
    Secure { root_cert: Vec<u8> },
    /// In plain text.
    Insecure,
}

impl<'a> ClientConfig<'a> {
    /// The transport to use: secure where a root certificate is configured,
    /// and then with that certificate; plain text otherwise.
    pub fn transport(&self) -> (transport: Transport)
        ensures
            match self.certificate {
                Some(certificate) => transport matches Transport::Secure { root_cert }
                    && root_cert@ == certificate@,
                None => transport is Insecure,
            },
    {
        match &self.certificate {
            Some(certificate) => {
                let root_cert = certificate.clone();
                assert(root_cert@ =~= certificate@);
                Transport::Secure { root_cert }
            },
            None => Transport::Insecure,
        }
    }

    /// What the agent says of itself when it connects: the configured
    /// hostname, and the `version` of the software that it runs.
    pub fn metadata(&self, version: &str) -> (metadata: Metadata)
        ensures
            metadata@ == (MetadataView { hostname: self.client_hostname@, version: version@ }),
    {
        Metadata::new(self.client_hostname, version)
    }
}

/// Where a task that came in from the coordinator goes.
#[derive(Debug, Clone, Copy, PartialEq, Eq, Structural)]
pub enum Route {
    /// To the handler that sends echo requests.
    PingOutbound,
    /// Nowhere: a keepalive asks for nothing.
    Ignore,
    /// Nowhere: the kind of task is not known. It is logged and dropped, and
    /// the session goes on.
    Unknown,
}

/// The route of `task`, by its kind.
pub open spec fn route_of(data: TaskDataView) -> Route {
    match data {
        TaskDataView::Ping(_) => Route::PingOutbound,
        TaskDataView::Empty => Route::Ignore,
        TaskDataView::Unknown => Route::Unknown,
    }
}

/// Decides where `task` goes: a ping to the outbound-ping handler, a
/// keepalive nowhere, anything else nowhere but into the log.
pub fn route(task: &Task) -> (r: Route)
    ensures
        r == route_of(task@.data),
{
    match task.data {
        TaskData::Ping(_) => Route::PingOutbound,
        TaskData::Empty => Route::Ignore,
        TaskData::Unknown => Route::Unknown,
    }
}

} // verus!
