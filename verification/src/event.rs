//! Events and reports exchanged between the client's parts and the server.

use vstd::prelude::*;
use crate::package::{Package, UpdateResultCode};

verus! {

/// An update the server offers.
#[derive(Debug, PartialEq, Eq, Clone)]
pub struct UpdateAvailable {
    pub update_id: String,
    pub signature: String,
    pub description: String,
    pub request_confirmation: bool,
    pub size: u64,
}

/// An update whose package has been downloaded completely.
#[derive(Debug, PartialEq, Eq, Clone)]
pub struct DownloadComplete {
    pub update_id: String,
    /// Where the downloaded package is stored.
    pub update_image: String,
    pub signature: String,
}

/// The server asks for the installed software.
#[derive(Debug, PartialEq, Eq, Clone)]
pub struct GetInstalledSoftware {
    pub include_packages: bool,
    pub include_module_firmware: bool,
}

/// The outcome of one operation of an update.
#[derive(Debug, PartialEq, Eq, Clone)]
pub struct OperationResult {
    pub id: String,
    pub result_code: UpdateResultCode,
    pub result_text: String,
}

/// The outcome of an update.
#[derive(Debug, PartialEq, Eq, Clone)]
pub struct UpdateReport {
    pub update_id: String,
    pub operation_results: Vec<OperationResult>,
}

impl UpdateReport {
    /// The report of an update that consisted of a single operation.
    pub fn single(update_id: String, result_code: UpdateResultCode, result_text: String) -> (r: UpdateReport)
        ensures
            r.update_id@ == update_id@,
            r.operation_results@.len() == 1,
            r.operation_results@[0].id@ == update_id@,
            r.operation_results@[0].result_code == result_code,
            r.operation_results@[0].result_text == result_text,
    {
        let id = String::from_str(update_id.as_str());
        UpdateReport {
            update_id,
            operation_results: vec![OperationResult { id, result_code, result_text }],
        }
    }
}

/// The software installed on the device.
#[derive(Debug, PartialEq, Eq, Clone)]
pub struct InstalledSoftware {
    pub packages: Vec<Package>,
}

/// Events arriving from the server through RVI.
#[derive(Debug, PartialEq, Eq, Clone)]
pub enum InboundEvent {
    UpdateAvailable(UpdateAvailable),
    DownloadComplete(DownloadComplete),
    GetInstalledSoftware(GetInstalledSoftware),
}

} // verus!
