//! What the client asks of the SOTA server's HTTP API and how it reads the
//! answers.

use vstd::prelude::*;
use crate::event::UpdateAvailable;
use crate::interpreter::PendingUpdateRequest;

verus! {

/// The path, relative to the server, of the vehicle's update resources:
/// `/api/v1/vehicle_updates/<vin>`, followed by `/<path>` unless `path` is
/// empty.
pub open spec fn spec_vehicle_updates_path(vin: Seq<char>, path: Seq<char>) -> Seq<char> {
    if path.len() == 0 {
        "/api/v1/vehicle_updates/"@ + vin
    } else {
        "/api/v1/vehicle_updates/"@ + vin + "/"@ + path
    }
}

/// The path of the vehicle's update resource `path`.
pub fn vehicle_updates_path(vin: &str, path: &str) -> (r: String)
    ensures
        r@ == spec_vehicle_updates_path(vin@, path@),
{
    let base = String::from_str("/api/v1/vehicle_updates/").concat(vin);
    if path.unicode_len() == 0 {
        base
    } else {
        base.concat("/").concat(path)
    }
}

/// The path of the vehicle resource `s` in the older API:
/// `/api/v1/vehicles/<vin>/<s>`.
pub fn vehicle_path(vin: &str, s: &str) -> (r: String)
    ensures
        r@ == "/api/v1/vehicles/"@ + vin@ + "/"@ + s@,
{
    String::from_str("/api/v1/vehicles/").concat(vin).concat("/").concat(s)
}

/// The offer of a pending update: its request id, the package as
/// `<name> <version>` for a description, no confirmation asked, and the
/// fixed signature and size the server API leaves out.
pub fn update_available_of(req: &PendingUpdateRequest) -> (u: UpdateAvailable)
    ensures
        u.update_id@ == req.request_id@,
        u.signature@ == "signature"@,
        u.description@ == req.package_id.name@ + " "@ + req.package_id.version@,
        !u.request_confirmation,
        u.size == 32,
{
    UpdateAvailable {
        update_id: req.request_id.clone(),
        signature: String::from_str("signature"),
        description: String::from_str(req.package_id.name.as_str()).concat(" ").concat(
            req.package_id.version.as_str(),
        ),
        request_confirmation: false,
        size: 32,
    }
}

/// The offers of the pending updates, in the server's order.
pub fn updates_available(reqs: &Vec<PendingUpdateRequest>) -> (r: Vec<UpdateAvailable>)
    ensures
        r@.len() == reqs@.len(),
        forall|i: int|
            0 <= i < reqs@.len() ==> {
                &&& (#[trigger] r@[i]).update_id@ == reqs@[i].request_id@
                &&& r@[i].signature@ == "signature"@
                &&& r@[i].description@ == reqs@[i].package_id.name@ + " "@ + reqs@[i].package_id.version@
                &&& !r@[i].request_confirmation
                &&& r@[i].size == 32
            },
{
    let mut r: Vec<UpdateAvailable> = Vec::new();
    let mut i: usize = 0;
    while i < reqs.len()
        invariant
            i <= reqs.len(),
            r@.len() == i,
            forall|k: int|
                0 <= k < i ==> {
                    &&& (#[trigger] r@[k]).update_id@ == reqs@[k].request_id@
                    &&& r@[k].signature@ == "signature"@
                    &&& r@[k].description@ == reqs@[k].package_id.name@ + " "@ + reqs@[k].package_id.version@
                    &&& !r@[k].request_confirmation
                    &&& r@[k].size == 32
                },
        decreases reqs.len() - i,
    {
        let u = update_available_of(&reqs[i]);
        r.push(u);
        i = i + 1;
    }
    r
}

} // verus!
