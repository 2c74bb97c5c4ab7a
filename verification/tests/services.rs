use sota::event::{InboundEvent, InstalledSoftware, UpdateAvailable, UpdateReport};
use sota::package::{PackageId, UpdateResultCode};
use sota::parm::{AbortParams, ChunkParams, Error, FinishParams, NotifyParams, ReportParams, StartParams};
use sota::persistence::{Transfer, Transfers};
use sota::svc::{
    param_response, register_services, service_kind, service_names, BackendServices, ChunkReceived,
    LocalServices, RemoteServices, ServiceKind,
};

fn local(start: &str) -> LocalServices {
    LocalServices {
        start: start.to_string(),
        chunk: "c".to_string(),
        abort: "a".to_string(),
        finish: "f".to_string(),
        getpackages: "g".to_string(),
    }
}

fn backend() -> BackendServices {
    BackendServices {
        start: "s".to_string(),
        ack: "ack".to_string(),
        report: "r".to_string(),
        packages: "p".to_string(),
    }
}

#[test]
fn vin_is_read_from_the_start_service() {
    let l = local("genivi.org/vin/V1234/sota/start");
    assert_eq!(l.get_vin(2), "V1234");
    assert_eq!(l.get_vin(0), "genivi.org");
    assert_eq!(l.vin_segment(5), None);
    assert_eq!(l.vin_segment(-1), None);
    assert_eq!(local("a//b").get_vin(1), "");
}

#[test]
fn backend_services_start_empty() {
    let b = BackendServices::new();
    assert_eq!((b.start.as_str(), b.ack.as_str(), b.report.as_str(), b.packages.as_str()), ("", "", "", ""));
}

#[test]
fn remote_services_need_the_servers_services() {
    let mut r = RemoteServices::new("http://rvi".to_string());
    assert_eq!(r.vin, "");
    let ack = ChunkReceived { update_id: "u".to_string(), chunks: vec![1], vin: "v".to_string() };
    assert_eq!(r.send_chunk_received(ack.clone()).unwrap_err(), "RemoteServices not set");
    assert_eq!(r.send_start_download("u".to_string()).unwrap_err(), "RemoteServices not set");
    r.set_remote("V".to_string(), local("x"));
    r.set(backend());
    let send = r.send_chunk_received(ack.clone()).unwrap();
    assert_eq!((send.url.as_str(), send.address.as_str()), ("http://rvi", "ack"));
    assert_eq!(send.payload, ack);
    let start = r.send_start_download("u9".to_string()).unwrap();
    assert_eq!(start.address, "s");
    assert_eq!((start.payload.vin.as_str(), start.payload.update_id.as_str()), ("V", "u9"));
    assert_eq!(start.payload.services, local("x"));
    let report = UpdateReport::single("u".to_string(), UpdateResultCode::OK, "".to_string());
    let sent = r.send_update_report(report.clone()).unwrap();
    assert_eq!((sent.address.as_str(), sent.payload.vin.as_str()), ("r", "V"));
    assert_eq!(sent.payload.update_report, report);
    let sw = r.send_installed_software(InstalledSoftware { packages: vec![] }).unwrap();
    assert_eq!(sw.address, "p");
}

#[test]
fn services_are_registered_and_dispatched() {
    let names = service_names();
    assert_eq!(names, vec!["/sota/notify", "/sota/start", "/sota/chunk", "/sota/abort", "/sota/finish", "/sota/getpackages"]);
    assert_eq!(service_kind("/sota/chunk"), Some(ServiceKind::Chunk));
    assert_eq!(service_kind("/sota/getpackages"), Some(ServiceKind::GetPackages));
    assert_eq!(service_kind("/sota/other"), None);
    let mut r = RemoteServices::new("u".to_string());
    register_services(&mut r, 2, "rvi/vin/V7/sota/start".to_string(), "c".to_string(), "a".to_string(),
                      "f".to_string(), "g".to_string());
    assert_eq!(r.vin, "V7");
    assert_eq!(r.local_svcs.as_ref().unwrap().chunk, "c");
}

#[test]
fn responses_to_service_calls() {
    assert_eq!(param_response(1, None, true).unwrap_err().error.code, -32602);
    assert_eq!(param_response(1, None, true).unwrap_err().id, 1);
    let ok = param_response(1, Some(7), true).unwrap();
    assert_eq!((ok.id, ok.result), (7, None));
    let e = param_response(1, Some(7), false).unwrap_err();
    assert_eq!((e.id, e.error.code, e.error.message.as_str()), (7, -32100, "Couldn't handle request"));
}

fn notify() -> NotifyParams {
    NotifyParams {
        update_available: UpdateAvailable {
            update_id: "u1".to_string(),
            signature: "sig".to_string(),
            description: "d".to_string(),
            request_confirmation: false,
            size: 32,
        },
        services: backend(),
    }
}

#[test]
fn a_whole_transfer() {
    let mut remote = RemoteServices::new("http://rvi".to_string());
    let mut transfers = Transfers::new();
    let start = StartParams { update_id: "u1".to_string(), chunkscount: 2, checksum: "4e1243bd22c66e76c2ba9eddc1f91394e57f9f83".to_string() };
    // before the server announced its services, the acknowledgement fails
    assert_eq!(start.handle(&remote, &mut transfers, "/tmp/p".to_string(), &Vec::new()).unwrap_err(), Error::SendFailure);
    assert!(transfers.contains("u1"));

    let ev = notify().handle(&mut remote).unwrap();
    match ev {
        Some(InboundEvent::UpdateAvailable(u)) => assert_eq!(u.update_id, "u1"),
        other => panic!("unexpected {:?}", other),
    }
    let start = StartParams { update_id: "u1".to_string(), chunkscount: 2, checksum: "4e1243bd22c66e76c2ba9eddc1f91394e57f9f83".to_string() };
    let ack = start.handle(&remote, &mut transfers, "/tmp/p".to_string(), &Vec::new()).unwrap();
    assert_eq!(ack.address, "ack");
    assert!(ack.payload.chunks.is_empty());

    // "test\n" split into two chunks: "tes" and "t\n"
    let c0 = ChunkParams { update_id: "u1".to_string(), bytes: "dGVz".to_string(), index: 0 };
    let f0 = c0.chunk_file(&transfers).unwrap();
    assert_eq!(f0.data, b"tes".to_vec());
    assert_eq!(f0.path, "/tmp/p/downloads/u1-/0");
    assert_eq!(c0.chunk_stored(&remote, &mut transfers).unwrap().payload.chunks, vec![0]);
    let c1 = ChunkParams { update_id: "u1".to_string(), bytes: "dAo=".to_string(), index: 1 };
    assert_eq!(c1.chunk_file(&transfers).unwrap().data, b"t\n".to_vec());
    assert_eq!(c1.chunk_stored(&remote, &mut transfers).unwrap().payload.chunks, vec![0, 1]);

    let unknown = ChunkParams { update_id: "nope".to_string(), bytes: "dGVz".to_string(), index: 0 };
    assert_eq!(unknown.chunk_file(&transfers).unwrap_err(), Error::UnknownPackage);
    let broken = ChunkParams { update_id: "u1".to_string(), bytes: "***".to_string(), index: 2 };
    assert_eq!(broken.chunk_file(&transfers).unwrap_err(), Error::IoFailure);

    let bad = FinishParams { update_id: "u1".to_string(), signature: "s".to_string() };
    assert_eq!(bad.handle(&mut transfers, &Some(b"wrong".to_vec())).unwrap_err(), Error::UnknownPackage);
    assert!(transfers.contains("u1"));
    let finish = FinishParams { update_id: "u1".to_string(), signature: "s".to_string() };
    match finish.handle(&mut transfers, &Some(b"test\n".to_vec())).unwrap() {
        Some(InboundEvent::DownloadComplete(dl)) => {
            assert_eq!((dl.update_id.as_str(), dl.update_image.as_str(), dl.signature.as_str()), ("u1", "", "s"));
        }
        other => panic!("unexpected {:?}", other),
    }
    assert!(!transfers.contains("u1"));
}

#[test]
fn abort_and_report() {
    let mut transfers = Transfers::new();
    transfers.push("a".to_string(), Transfer::new("/p"));
    assert_eq!(AbortParams.handle(&mut transfers), Ok(None));
    assert!(!transfers.contains("a"));
    let req: ReportParams = sota::event::GetInstalledSoftware { include_packages: true, include_module_firmware: false };
    match req.handle() {
        Ok(Some(InboundEvent::GetInstalledSoftware(g))) => assert!(g.include_packages),
        other => panic!("unexpected {:?}", other),
    }
    let _ = PackageId { name: String::new(), version: String::new() };
}
