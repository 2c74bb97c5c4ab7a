//! The handlers of the service calls the server makes through RVI: update
//! notifications and the chunked transfer of packages.

use vstd::prelude::*;
use crate::event::{DownloadComplete, GetInstalledSoftware, InboundEvent, UpdateAvailable};
use crate::package::PackageId;
use crate::persistence::{ChunkFile, Transfer, Transfers, base64_decoded, sha1_hex, listed_indices, names_view};
use crate::sort::sorted;
use crate::svc::{BackendServices, ChunkReceived, RemoteServices, RviSend};

verus! {

/// Why a service call could not be handled.
#[derive(Debug, Clone, Copy, PartialEq, Eq, Structural)]
pub enum Error {
    /// No transfer of the update is in progress, or it did not complete.
    UnknownPackage,
    /// A chunk could not be stored.
    IoFailure,
    /// The acknowledgement could not be sent.
    SendFailure,
}

/// "Notify": updates are available, and the server's services.
#[derive(Debug)]
pub struct NotifyParams {
    pub update_available: UpdateAvailable,
    pub services: BackendServices,
}

impl NotifyParams {
    /// Records the server's services and passes the update on.
    pub fn handle(self, services: &mut RemoteServices) -> (r: Result<Option<InboundEvent>, Error>)
        ensures
            final(services).svcs == Some(self.services),
            final(services).vin == old(services).vin,
            final(services).url == old(services).url,
            final(services).local_svcs == old(services).local_svcs,
            r == Ok::<Option<InboundEvent>, Error>(Some(InboundEvent::UpdateAvailable(self.update_available))),
    {
        services.set(self.services);
        Ok(Some(InboundEvent::UpdateAvailable(self.update_available)))
    }
}

/// "Start Transfer" of an update's package.
#[derive(Debug)]
pub struct StartParams {
    pub update_id: String,
    /// The number of chunks the transfer will have.
    pub chunkscount: u64,
    /// The SHA-1 checksum of the assembled package.
    pub checksum: String,
}

impl StartParams {
    /// Starts the transfer (the update id names the package; chunks already
    /// stored in its chunk directory, listed as `names`, count as
    /// transferred) and acknowledges the chunks held so far.
    pub fn handle(
        self,
        services: &RemoteServices,
        transfers: &mut Transfers,
        prefix_dir: String,
        names: &Vec<Option<String>>,
    ) -> (r: Result<RviSend<ChunkReceived>, Error>)
        ensures
            final(transfers).view().dom() == old(transfers).view().dom().insert(self.update_id@),
            forall|k: Seq<char>|
                k != self.update_id@ && old(transfers).view().contains_key(k) ==> final(transfers).view()[k]
                    == old(transfers).view()[k],
            ({
                let t = final(transfers).view()[self.update_id@];
                &&& t.package.name@ == self.update_id@
                &&& t.package.version@ == Seq::<char>::empty()
                &&& t.checksum == self.checksum
                &&& t.prefix_dir == prefix_dir
                &&& sorted(t.transferred_chunks@)
                &&& t.transferred_chunks@.to_multiset() == listed_indices(names_view(names@)).to_multiset()
            }),
            services.svcs is None <==> r == Err::<RviSend<ChunkReceived>, Error>(Error::SendFailure),
            services.svcs is Some ==> r is Ok,
            r matches Ok(send) ==> send.url == services.url && send.address == services.svcs->0.ack
                && send.payload.update_id == self.update_id && send.payload.chunks@.len() == 0
                && send.payload.vin == services.vin,
    {
        let package = PackageId { name: self.update_id.clone(), version: String::new() };
        let transfer = Transfer::from_disk(package, self.checksum, prefix_dir, names);
        transfers.push(self.update_id.clone(), transfer);
        let ack = ChunkReceived { update_id: self.update_id, chunks: Vec::new(), vin: services.vin.clone() };
        match services.send_chunk_received(ack) {
            Ok(send) => Ok(send),
            Err(_) => Err(Error::SendFailure),
        }
    }
}

/// A single chunk of a transfer.
#[derive(Debug)]
pub struct ChunkParams {
    /// The update the chunk belongs to.
    pub update_id: String,
    /// The chunk, base64 encoded.
    pub bytes: String,
    /// The index of the chunk.
    pub index: u64,
}

impl ChunkParams {
    /// The file storing the chunk takes: an unknown update is
    /// `UnknownPackage`, a chunk that is no base64 `IoFailure`. Once the file
    /// is written, `chunk_stored` records and acknowledges it.
    pub fn chunk_file(&self, transfers: &Transfers) -> (r: Result<ChunkFile, Error>)
        ensures
            !transfers.view().contains_key(self.update_id@) ==> r == Err::<ChunkFile, Error>(Error::UnknownPackage),
            transfers.view().contains_key(self.update_id@) ==> {
                let t = transfers.view()[self.update_id@];
                &&& base64_decoded(self.bytes@) is None ==> r == Err::<ChunkFile, Error>(Error::IoFailure)
                &&& base64_decoded(self.bytes@) is Some ==> (r matches Ok(f) && f.data@ == base64_decoded(
                    self.bytes@,
                )->0 && f.dir@ == t.chunk_dir_view() && f.path@ == t.chunk_path_view(self.index))
            },
    {
        match transfers.get(self.update_id.as_str()) {
            None => Err(Error::UnknownPackage),
            Some(t) => match t.write_chunk(self.bytes.as_str(), self.index) {
                Some(f) => Ok(f),
                None => Err(Error::IoFailure),
            },
        }
    }

    /// Records the stored chunk in its transfer and acknowledges all chunks
    /// stored so far.
    pub fn chunk_stored(&self, services: &RemoteServices, transfers: &mut Transfers) -> (r: Result<
        RviSend<ChunkReceived>,
        Error,
    >)
        ensures
            !old(transfers).view().contains_key(self.update_id@) ==> r == Err::<RviSend<ChunkReceived>, Error>(
                Error::UnknownPackage,
            ) && final(transfers).view() == old(transfers).view(),
            old(transfers).view().contains_key(self.update_id@) ==> {
                let before = old(transfers).view()[self.update_id@];
                let after = final(transfers).view()[self.update_id@];
                &&& final(transfers).view().dom() == old(transfers).view().dom()
                &&& forall|k: Seq<char>|
                    k != self.update_id@ && old(transfers).view().contains_key(k) ==> final(transfers).view()[k]
                        == old(transfers).view()[k]
                &&& after.transferred_chunks@ == before.transferred_chunks@.push(self.index)
                &&& after.package == before.package
                &&& after.checksum == before.checksum
                &&& after.prefix_dir == before.prefix_dir
                &&& (services.svcs is None <==> r == Err::<RviSend<ChunkReceived>, Error>(Error::SendFailure))
                &&& (services.svcs is Some ==> r is Ok)
                &&& (r matches Ok(send) ==> send.url == services.url && send.address == services.svcs->0.ack
                    && send.payload.update_id == self.update_id && send.payload.chunks@ == after.transferred_chunks@
                    && send.payload.vin == services.vin)
            },
    {
        match transfers.remove(self.update_id.as_str()) {
            None => Err(Error::UnknownPackage),
            Some(mut t) => {
                t.record_chunk(self.index);
                let chunks = t.transferred_chunks.clone();
                assert(chunks@ =~= t.transferred_chunks@);
                let ghost after = t;
                transfers.push(self.update_id.clone(), t);
                assert(transfers.view().dom() =~= old(transfers).view().dom());
                let ack = ChunkReceived { update_id: self.update_id.clone(), chunks, vin: services.vin.clone() };
                match services.send_chunk_received(ack) {
                    Ok(send) => Ok(send),
                    Err(_) => Err(Error::SendFailure),
                }
            },
        }
    }
}

/// "Finish Transfer" of an update's package.
#[derive(Debug)]
pub struct FinishParams {
    pub update_id: String,
    pub signature: String,
}

impl FinishParams {
    /// Ends a complete transfer: with the package assembled from the stored
    /// chunks (`None` when that failed) and its checksum as announced, the
    /// transfer ends and the download is complete; otherwise (also for an
    /// unknown update) nothing changes and the package is unknown.
    pub fn handle(self, transfers: &mut Transfers, assembled: &Option<Vec<u8>>) -> (r: Result<
        Option<InboundEvent>,
        Error,
    >)
        ensures
            ({
                let complete = old(transfers).view().contains_key(self.update_id@) && match assembled {
                    Some(d) => sha1_hex(d@) == old(transfers).view()[self.update_id@].checksum@,
                    None => false,
                };
                &&& complete ==> final(transfers).view() == old(transfers).view().remove(self.update_id@)
                    && (r matches Ok(Some(InboundEvent::DownloadComplete(dl))) && dl.update_id == self.update_id
                    && dl.update_image@ == Seq::<char>::empty() && dl.signature == self.signature)
                &&& !complete ==> final(transfers).view() == old(transfers).view() && r == Err::<
                    Option<InboundEvent>,
                    Error,
                >(Error::UnknownPackage)
            }),
    {
        let success = match transfers.get(self.update_id.as_str()) {
            Some(t) => t.assemble_package(assembled),
            None => false,
        };
        if success {
            let _ = transfers.remove(self.update_id.as_str());
            Ok(
                Some(
                    InboundEvent::DownloadComplete(
                        DownloadComplete {
                            update_id: self.update_id,
                            update_image: String::new(),
                            signature: self.signature,
                        },
                    ),
                ),
            )
        } else {
            Err(Error::UnknownPackage)
        }
    }
}

/// "Abort Transfer": all transfers are dropped.
#[derive(Debug)]
pub struct AbortParams;

impl AbortParams {
    /// Ends every transfer in progress.
    pub fn handle(&self, transfers: &mut Transfers) -> (r: Result<Option<InboundEvent>, Error>)
        ensures
            final(transfers).view() == Map::<Seq<char>, Transfer>::empty(),
            r == Ok::<Option<InboundEvent>, Error>(None),
    {
        transfers.clear();
        Ok(None)
    }
}

/// "Get All Packages": the server asks for the installed software.
pub type ReportParams = GetInstalledSoftware;

impl GetInstalledSoftware {
    /// Passes the request on.
    pub fn handle(self) -> (r: Result<Option<InboundEvent>, Error>)
        ensures
            r == Ok::<Option<InboundEvent>, Error>(Some(InboundEvent::GetInstalledSoftware(self))),
    {
        Ok(Some(InboundEvent::GetInstalledSoftware(self)))
    }
}

} // verus!
