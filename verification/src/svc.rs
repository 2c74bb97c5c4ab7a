//! The services the client registers at RVI and those the server provides,
//! and the messages the client sends to the server through RVI.

use vstd::prelude::*;
use crate::event::{InstalledSoftware, UpdateReport};
use crate::jsonrpc::{ErrResponse, OkResponse, is_error};
use crate::text::{nth_segment, segment, str_eq};

verus! {

/// The full service names the client registered at RVI.
#[derive(Debug, PartialEq, Eq, Clone)]
pub struct LocalServices {
    /// "Start Download".
    pub start: String,
    /// "Chunk".
    pub chunk: String,
    /// "Abort Download".
    pub abort: String,
    /// "Finish Download".
    pub finish: String,
    /// "Get All Packages".
    pub getpackages: String,
}

impl LocalServices {
    /// A copy of the service names.
    pub fn duplicate(&self) -> (r: LocalServices)
        ensures
            r == *self,
    {
        LocalServices {
            start: self.start.clone(),
            chunk: self.chunk.clone(),
            abort: self.abort.clone(),
            finish: self.finish.clone(),
            getpackages: self.getpackages.clone(),
        }
    }

    /// The piece of the "Start Download" service name at position `vin_match`
    /// (counting `/`-separated pieces from zero), if there is one.
    pub fn vin_segment(&self, vin_match: i32) -> (r: Option<String>)
        ensures
            vin_match < 0 ==> r is None,
            vin_match >= 0 ==> match r {
                Some(v) => segment(self.start@, '/', vin_match as nat) == Some(v@),
                None => segment(self.start@, '/', vin_match as nat) is None,
            },
    {
        if vin_match < 0 {
            None
        } else {
            nth_segment(self.start.as_str(), '/', vin_match as usize)
        }
    }

    /// The VIN of this device: the piece of the "Start Download" service name
    /// at position `vin_match`.
    pub fn get_vin(&self, vin_match: i32) -> (r: String)
        requires
            vin_match >= 0,
            segment(self.start@, '/', vin_match as nat) is Some,
        ensures
            segment(self.start@, '/', vin_match as nat) == Some(r@),
    {
        match self.vin_segment(vin_match) {
            Some(v) => v,
            None => String::new(),
        }
    }
}

/// The service names the server provides.
#[derive(Debug, PartialEq, Eq, Clone)]
pub struct BackendServices {
    /// "Start Download".
    pub start: String,
    /// "Chunk Received".
    pub ack: String,
    /// "Installation Report".
    pub report: String,
    /// "Get All Packages".
    pub packages: String,
}

impl BackendServices {
    /// Service names that are all empty.
    pub fn new() -> (b: BackendServices)
        ensures
            b.start@ == Seq::<char>::empty(),
            b.ack@ == Seq::<char>::empty(),
            b.report@ == Seq::<char>::empty(),
            b.packages@ == Seq::<char>::empty(),
    {
        BackendServices { start: String::new(), ack: String::new(), report: String::new(), packages: String::new() }
    }
}

/// The acknowledgement that chunks of a transfer arrived.
#[derive(Debug, PartialEq, Eq, Clone)]
pub struct ChunkReceived {
    /// The update the chunks belong to.
    pub update_id: String,
    /// All chunks stored so far.
    pub chunks: Vec<u64>,
    /// The VIN of this device.
    pub vin: String,
}

/// The request to start downloading an update.
#[derive(Debug, PartialEq, Eq, Clone)]
pub struct StartDownload {
    pub vin: String,
    pub update_id: String,
    pub services: LocalServices,
}

/// An installation report with the VIN of the device.
#[derive(Debug, PartialEq, Eq, Clone)]
pub struct UpdateResult {
    pub vin: String,
    pub update_report: UpdateReport,
}

/// The installed software with the VIN of the device.
#[derive(Debug, PartialEq, Eq, Clone)]
pub struct InstalledSoftwareResult {
    pub vin: String,
    pub installed_software: InstalledSoftware,
}

/// A message to be sent through the RVI node at `url` to the service
/// `address`.
#[derive(Debug, PartialEq, Eq, Clone)]
pub struct RviSend<T> {
    pub url: String,
    pub address: String,
    pub payload: T,
}

/// What the client knows of the two ends of the RVI connection.
#[derive(Debug)]
pub struct RemoteServices {
    /// The VIN of this device.
    pub vin: String,
    /// The full URL of the RVI node.
    pub url: String,
    /// The services the client registered, once registered.
    pub local_svcs: Option<LocalServices>,
    /// The services the server provides, once announced.
    pub svcs: Option<BackendServices>,
}

/// The error of a send before the server announced its services.
pub open spec fn not_set_message() -> Seq<char> {
    "RemoteServices not set"@
}

impl RemoteServices {
    /// Nothing known yet but the URL of the RVI node.
    pub fn new(url: String) -> (r: RemoteServices)
        ensures
            r.vin@ == Seq::<char>::empty(),
            r.url == url,
            r.local_svcs is None,
            r.svcs is None,
    {
        RemoteServices { vin: String::new(), url, local_svcs: None, svcs: None }
    }

    /// Records the VIN and the services the client registered.
    pub fn set_remote(&mut self, vin: String, svcs: LocalServices)
        ensures
            final(self).vin == vin,
            final(self).local_svcs == Some(svcs),
            final(self).url == old(self).url,
            final(self).svcs == old(self).svcs,
    {
        self.vin = vin;
        self.local_svcs = Some(svcs);
    }

    /// Records the services the server announced.
    pub fn set(&mut self, svcs: BackendServices)
        ensures
            final(self).svcs == Some(svcs),
            final(self).vin == old(self).vin,
            final(self).url == old(self).url,
            final(self).local_svcs == old(self).local_svcs,
    {
        self.svcs = Some(svcs);
    }

    /// Acknowledges chunks to the server's "Chunk Received" service.
    pub fn send_chunk_received(&self, m: ChunkReceived) -> (r: Result<RviSend<ChunkReceived>, String>)
        ensures
            match self.svcs {
                None => r matches Err(e) && e@ == not_set_message(),
                Some(s) => r matches Ok(send) && send.url == self.url && send.address == s.ack
                    && send.payload == m,
            },
    {
        match &self.svcs {
            None => Err(String::from_str("RemoteServices not set")),
            Some(s) => Ok(RviSend { url: self.url.clone(), address: s.ack.clone(), payload: m }),
        }
    }

    /// The request to start downloading update `id`.
    pub fn make_start_download(&self, id: String) -> (r: StartDownload)
        requires
            self.local_svcs is Some,
        ensures
            r.vin == self.vin,
            r.update_id == id,
            Some(r.services) == self.local_svcs,
    {
        match &self.local_svcs {
            Some(l) => StartDownload { vin: self.vin.clone(), services: l.duplicate(), update_id: id },
            None => StartDownload {
                vin: self.vin.clone(),
                services: LocalServices {
                    start: String::new(),
                    chunk: String::new(),
                    abort: String::new(),
                    finish: String::new(),
                    getpackages: String::new(),
                },
                update_id: id,
            },
        }
    }

    /// Asks the server's "Start Download" service for update `id`.
    pub fn send_start_download(&self, id: String) -> (r: Result<RviSend<StartDownload>, String>)
        requires
            self.svcs is Some ==> self.local_svcs is Some,
        ensures
            match self.svcs {
                None => r matches Err(e) && e@ == not_set_message(),
                Some(s) => r matches Ok(send) && send.url == self.url && send.address == s.start
                    && send.payload.vin == self.vin && send.payload.update_id == id && Some(
                    send.payload.services,
                ) == self.local_svcs,
            },
    {
        match &self.svcs {
            None => Err(String::from_str("RemoteServices not set")),
            Some(s) => Ok(
                RviSend { url: self.url.clone(), address: s.start.clone(), payload: self.make_start_download(id) },
            ),
        }
    }

    /// Sends an installation report to the server's "Installation Report"
    /// service.
    pub fn send_update_report(&self, m: UpdateReport) -> (r: Result<RviSend<UpdateResult>, String>)
        ensures
            match self.svcs {
                None => r matches Err(e) && e@ == not_set_message(),
                Some(s) => r matches Ok(send) && send.url == self.url && send.address == s.report
                    && send.payload.vin == self.vin && send.payload.update_report == m,
            },
    {
        match &self.svcs {
            None => Err(String::from_str("RemoteServices not set")),
            Some(s) => Ok(
                RviSend {
                    url: self.url.clone(),
                    address: s.report.clone(),
                    payload: UpdateResult { vin: self.vin.clone(), update_report: m },
                },
            ),
        }
    }

    /// Sends the installed software to the server's "Get All Packages"
    /// service.
    pub fn send_installed_software(&self, m: InstalledSoftware) -> (r: Result<
        RviSend<InstalledSoftwareResult>,
        String,
    >)
        ensures
            match self.svcs {
                None => r matches Err(e) && e@ == not_set_message(),
                Some(s) => r matches Ok(send) && send.url == self.url && send.address == s.packages
                    && send.payload.vin == self.vin && send.payload.installed_software == m,
            },
    {
        match &self.svcs {
            None => Err(String::from_str("RemoteServices not set")),
            Some(s) => Ok(
                RviSend {
                    url: self.url.clone(),
                    address: s.packages.clone(),
                    payload: InstalledSoftwareResult { vin: self.vin.clone(), installed_software: m },
                },
            ),
        }
    }
}

/// The services the client offers through RVI.
#[derive(Debug, Clone, Copy, PartialEq, Eq, Structural)]
pub enum ServiceKind {
    Notify,
    Start,
    Chunk,
    Finish,
    Abort,
    GetPackages,
}

/// The service a call is addressed to.
pub open spec fn spec_service_kind(service: Seq<char>) -> Option<ServiceKind> {
    if service == "/sota/notify"@ {
        Some(ServiceKind::Notify)
    } else if service == "/sota/start"@ {
        Some(ServiceKind::Start)
    } else if service == "/sota/chunk"@ {
        Some(ServiceKind::Chunk)
    } else if service == "/sota/finish"@ {
        Some(ServiceKind::Finish)
    } else if service == "/sota/abort"@ {
        Some(ServiceKind::Abort)
    } else if service == "/sota/getpackages"@ {
        Some(ServiceKind::GetPackages)
    } else {
        None
    }
}

/// The name under which the client registers each of its services.
pub open spec fn kind_name(k: ServiceKind) -> Seq<char> {
    match k {
        ServiceKind::Notify => "/sota/notify"@,
        ServiceKind::Start => "/sota/start"@,
        ServiceKind::Chunk => "/sota/chunk"@,
        ServiceKind::Finish => "/sota/finish"@,
        ServiceKind::Abort => "/sota/abort"@,
        ServiceKind::GetPackages => "/sota/getpackages"@,
    }
}

/// The service names tell apart: each has its own length or its own
/// character after `/sota/`.
proof fn lemma_service_names_distinct()
    ensures
        "/sota/notify"@.len() == 12 && "/sota/notify"@[6] == 'n',
        "/sota/start"@.len() == 11 && "/sota/start"@[6] == 's',
        "/sota/chunk"@.len() == 11 && "/sota/chunk"@[6] == 'c',
        "/sota/finish"@.len() == 12 && "/sota/finish"@[6] == 'f',
        "/sota/abort"@.len() == 11 && "/sota/abort"@[6] == 'a',
        "/sota/getpackages"@.len() == 17,
{
    reveal_strlit("/sota/notify");
    reveal_strlit("/sota/start");
    reveal_strlit("/sota/chunk");
    reveal_strlit("/sota/finish");
    reveal_strlit("/sota/abort");
    reveal_strlit("/sota/getpackages");
}

/// Every service is dispatched by its own name: a call of the name under
/// which a service is registered goes to that service, and a call goes to a
/// service only under that service's name. So "Finish Download" reaches the
/// finishing handler and "Abort Download" the aborting one, and no two
/// names share a handler.
pub proof fn services_dispatch_by_name(k: ServiceKind, service: Seq<char>)
    ensures
        spec_service_kind(kind_name(k)) == Some(k),
        spec_service_kind(service) == Some(k) ==> service == kind_name(k),
{
    lemma_service_names_distinct();
}

/// Which of the client's services a call is addressed to.
pub fn service_kind(service: &str) -> (r: Option<ServiceKind>)
    ensures
        r == spec_service_kind(service@),
        r matches Some(k) ==> service@ == kind_name(k),
{
    if str_eq(service, "/sota/notify") {
        Some(ServiceKind::Notify)
    } else if str_eq(service, "/sota/start") {
        Some(ServiceKind::Start)
    } else if str_eq(service, "/sota/chunk") {
        Some(ServiceKind::Chunk)
    } else if str_eq(service, "/sota/finish") {
        Some(ServiceKind::Finish)
    } else if str_eq(service, "/sota/abort") {
        Some(ServiceKind::Abort)
    } else if str_eq(service, "/sota/getpackages") {
        Some(ServiceKind::GetPackages)
    } else {
        None
    }
}

/// The answer to a service call of request `id`: parameters that could not
/// be decoded (`decoded_id` is `None`) are invalid; otherwise the answer goes
/// to the decoded request id, a success when the call was handled.
pub fn param_response(id: u64, decoded_id: Option<u64>, handled: bool) -> (r: Result<OkResponse, ErrResponse>)
    ensures
        match decoded_id {
            None => r matches Err(e) && is_error(e, id, -32602, "Invalid params"@),
            Some(pid) => if handled {
                r matches Ok(ok) && ok.jsonrpc@ == "2.0"@ && ok.id == pid && ok.result is None
            } else {
                r matches Err(e) && is_error(e, pid, -32100, "Couldn't handle request"@)
            },
        },
{
    match decoded_id {
        None => Err(ErrResponse::invalid_params(id)),
        Some(pid) => if handled {
            Ok(OkResponse::new(pid, None))
        } else {
            Err(ErrResponse::unspecified(pid))
        },
    }
}

/// The services the client registers at RVI, in the order it registers them.
pub fn service_names() -> (r: Vec<&'static str>)
    ensures
        r@.len() == 6,
        r@[0]@ == "/sota/notify"@,
        r@[1]@ == "/sota/start"@,
        r@[2]@ == "/sota/chunk"@,
        r@[3]@ == "/sota/abort"@,
        r@[4]@ == "/sota/finish"@,
        r@[5]@ == "/sota/getpackages"@,
        forall|i: int| 0 <= i < 6 ==> spec_service_kind(#[trigger] r@[i]@) is Some,
        forall|i: int, j: int|
            0 <= i < 6 && 0 <= j < 6 && i != j ==> spec_service_kind(#[trigger] r@[i]@) != spec_service_kind(
                #[trigger] r@[j]@,
            ),
{
    proof {
        lemma_service_names_distinct();
    }
    vec!["/sota/notify", "/sota/start", "/sota/chunk", "/sota/abort", "/sota/finish", "/sota/getpackages"]
}

/// Records the services the client registered (their full names as RVI
/// assigned them) and the VIN read from the "Start Download" name.
pub fn register_services(
    remote: &mut RemoteServices,
    vin_match: i32,
    start: String,
    chunk: String,
    abort: String,
    finish: String,
    getpackages: String,
)
    requires
        vin_match >= 0,
        segment(start@, '/', vin_match as nat) is Some,
    ensures
        final(remote).local_svcs == Some(LocalServices { start, chunk, abort, finish, getpackages }),
        segment(start@, '/', vin_match as nat) == Some(final(remote).vin@),
        final(remote).url == old(remote).url,
        final(remote).svcs == old(remote).svcs,
{
    let svcs = LocalServices { start, chunk, abort, finish, getpackages };
    let vin = svcs.get_vin(vin_match);
    remote.set_remote(vin, svcs);
}

} // verus!
