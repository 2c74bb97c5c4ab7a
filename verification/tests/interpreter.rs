use sota::error::Error;
use sota::event::{DownloadComplete, UpdateReport};
use sota::interpreter::{
    authenticated_task, console_command, download_events, download_finished, response_event, task_events, TaskOutcome, finish, install_finished, is_authenticated, new_updates_event,
    sort_updates, unauthenticated, Command, CommandInterpreter, Event, EventInterpreter, PendingUpdateRequest,
    Task, Unauthenticated, unauthenticated_events,
};
use sota::package::{Package, PackageId, UpdateResultCode};
use sota::package_manager::PackageManager;

fn dl(id: &str) -> DownloadComplete {
    DownloadComplete { update_id: id.to_string(), update_image: format!("/tmp/{}", id), signature: "".to_string() }
}

fn update(id: &str, pos: i32) -> PendingUpdateRequest {
    PendingUpdateRequest {
        request_id: id.to_string(),
        install_pos: pos,
        package_id: PackageId { name: id.to_string(), version: "1".to_string() },
        created_at: "now".to_string(),
    }
}

#[test]
fn events_lead_to_commands() {
    let on = EventInterpreter { package_manager: Some(PackageManager::Deb) };
    let off = EventInterpreter { package_manager: None };
    let r = on.interpret(Event::Authenticated);
    assert_eq!(r.commands, vec![Command::SendSystemInfo]);
    assert!(r.list_packages);
    assert!(!off.interpret(Event::Authenticated).list_packages);
    assert_eq!(on.interpret(Event::NotAuthenticated).commands, vec![Command::Authenticate(None)]);
    let ids = vec!["1".to_string()];
    assert_eq!(on.interpret(Event::NewUpdatesReceived(ids.clone())).commands, vec![Command::StartDownload(ids)]);
    assert_eq!(on.interpret(Event::DownloadComplete(dl("1"))).commands, vec![Command::StartInstall(dl("1"))]);
    assert!(off.interpret(Event::DownloadComplete(dl("1"))).commands.is_empty());
    let report = UpdateReport::single("1".to_string(), UpdateResultCode::OK, "".to_string());
    assert_eq!(on.interpret(Event::InstallComplete(report.clone())).commands, vec![Command::SendUpdateReport(report)]);
    let r = on.interpret(Event::UpdateReportSent);
    assert!(r.commands.is_empty() && r.list_packages);
    let r = on.interpret(Event::NoNewUpdates);
    assert!(r.commands.is_empty() && !r.list_packages);
    let pkgs = vec![Package { name: "a".to_string(), version: "1".to_string() }];
    assert_eq!(on.packages_listed(Ok(pkgs.clone())), Some(Command::SendInstalledPackages(pkgs)));
    assert_eq!(on.packages_listed(Err(Error::Io("x".to_string()))), None);
    assert_eq!(CommandInterpreter.interpret(Command::Shutdown), Command::Shutdown);
}

#[test]
fn already_authenticated() {
    assert!(is_authenticated(true, true));
    assert!(is_authenticated(false, false));
    assert!(!is_authenticated(false, true));
    assert_eq!(authenticated_task(Command::Authenticate(None), true), Task::Reply(Event::Authenticated));
    assert_eq!(finish(Ok(()), vec![Event::Authenticated]), vec![Event::Authenticated]);
}

#[test]
fn unauthenticated_commands_are_refused() {
    assert_eq!(unauthenticated(&Command::Authenticate(None)), Unauthenticated::Authenticate);
    assert_eq!(unauthenticated(&Command::Shutdown), Unauthenticated::Shutdown);
    assert_eq!(unauthenticated(&Command::GetNewUpdates), Unauthenticated::Refuse);
    assert_eq!(unauthenticated(&Command::StartDownload(vec![])), Unauthenticated::Refuse);
}

#[test]
fn outcomes_become_events() {
    assert_eq!(finish(Err(Error::Authorization("no".to_string())), vec![]), vec![Event::NotAuthenticated]);
    assert_eq!(finish(Err(Error::Client("boom".to_string())), vec![Event::Authenticated]),
               vec![Event::Error("Http client error: boom".to_string())]);
}

#[test]
fn tasks() {
    assert_eq!(authenticated_task(Command::ListInstalledPackages, false), Task::Reply(Event::FoundInstalledPackages(vec![])));
    assert_eq!(authenticated_task(Command::ListInstalledPackages, true), Task::ListPackages);
    assert_eq!(authenticated_task(Command::GetNewUpdates, true), Task::FetchUpdates);
    assert_eq!(authenticated_task(Command::StartInstall(dl("1")), true), Task::Install(dl("1")));
    assert_eq!(authenticated_task(Command::Shutdown, true), Task::Shutdown);
}

#[test]
fn download_updates() {
    let ids = vec!["1".to_string(), "2".to_string()];
    let task = authenticated_task(Command::StartDownload(ids.clone()), true);
    let events = task_events(task, TaskOutcome::Downloads { via_rvi: false, results: vec![Ok(dl("1")), Ok(dl("2"))] });
    assert_eq!(events, vec![
        Event::DownloadingUpdate("1".to_string()),
        Event::DownloadComplete(dl("1")),
        Event::DownloadingUpdate("2".to_string()),
        Event::DownloadComplete(dl("2")),
    ]);
    assert_eq!(download_finished("1".to_string(), Ok(dl("1"))), Event::DownloadComplete(dl("1")));
    assert_eq!(download_finished("2".to_string(), Err(Error::Client("GET x".to_string()))),
               Event::DownloadFailed("2".to_string(), "Http client error: GET x".to_string()));
}

#[test]
fn install_update_success() {
    let report = UpdateReport::single("1".to_string(), UpdateResultCode::OK, "".to_string());
    assert_eq!(install_finished(Ok(report.clone())), Event::InstallComplete(report));
}

#[test]
fn install_update_failed() {
    let report = UpdateReport::single("1".to_string(), UpdateResultCode::INSTALL_FAILED, "failed".to_string());
    assert_eq!(report.operation_results[0].result_text, "failed");
    assert_eq!(install_finished(Err(report.clone())), Event::InstallFailed(report));
}

#[test]
fn updates_are_ordered_stably_by_install_position() {
    let sorted = sort_updates(vec![update("a", 3), update("b", 1), update("c", 3), update("d", 2), update("e", 1)]);
    let ids: Vec<&str> = sorted.iter().map(|u| u.request_id.as_str()).collect();
    assert_eq!(ids, vec!["b", "e", "d", "a", "c"]);
    assert_eq!(new_updates_event(vec![]), Event::NoNewUpdates);
    assert_eq!(new_updates_event(vec![update("x", 2), update("y", 1)]),
               Event::NewUpdatesReceived(vec!["y".to_string(), "x".to_string()]));
}

#[test]
fn console_lines_name_commands() {
    assert_eq!(console_command("ListPackages"), Some(Command::ListInstalledPackages));
    assert_eq!(console_command("ListInstalledPackages"), Some(Command::ListInstalledPackages));
    assert_eq!(console_command("Authenticate"), Some(Command::Authenticate(None)));
    assert_eq!(console_command("Shutdown"), Some(Command::Shutdown));
    assert_eq!(console_command("GetNewUpdates"), Some(Command::GetNewUpdates));
    assert_eq!(console_command("listpackages"), None);
    assert_eq!(console_command(""), None);
}

#[test]
fn download_events_per_update() {
    let ids = vec!["a".to_string(), "b".to_string()];
    let failed = download_events(ids.clone(), false, vec![Err(Error::Client("x".to_string())), Ok(dl("b"))]);
    assert_eq!(failed, vec![
        Event::DownloadingUpdate("a".to_string()),
        Event::DownloadFailed("a".to_string(), "Http client error: x".to_string()),
        Event::DownloadingUpdate("b".to_string()),
        Event::DownloadComplete(dl("b")),
    ]);
    assert_eq!(download_events(ids, true, Vec::new()),
               vec![Event::DownloadingUpdate("a".to_string()), Event::DownloadingUpdate("b".to_string())]);
    assert!(download_events(Vec::new(), false, Vec::new()).is_empty());
}

#[test]
fn every_task_broadcasts_events() {
    assert_eq!(task_events(authenticated_task(Command::Authenticate(None), true), TaskOutcome::Done),
               vec![Event::Authenticated]);
    assert_eq!(task_events(authenticated_task(Command::ListInstalledPackages, false), TaskOutcome::Done),
               vec![Event::FoundInstalledPackages(Vec::new())]);
    assert_eq!(task_events(Task::ListPackages, TaskOutcome::Packages(Err(Error::Io("gone".to_string())))),
               vec![Event::Error("IO error: gone".to_string())]);
    assert_eq!(task_events(Task::FetchUpdates, TaskOutcome::Updates(Err(Error::Authorization("no".to_string())))),
               vec![Event::NotAuthenticated]);
    assert_eq!(task_events(Task::FetchUpdates, TaskOutcome::Updates(Ok(Vec::new()))), vec![Event::NoNewUpdates]);
    assert_eq!(task_events(Task::SendSystemInfo, TaskOutcome::SystemInfo(Ok("linux".to_string()))),
               vec![Event::SystemInfoSent]);
    assert_eq!(task_events(Task::ListSystemInfo, TaskOutcome::SystemInfo(Ok("linux".to_string()))),
               vec![Event::FoundSystemInfo("linux".to_string())]);
    assert_eq!(task_events(Task::SendPackages(Vec::new()), TaskOutcome::Done), vec![Event::InstalledPackagesSent]);
    let report = UpdateReport::single("1".to_string(), UpdateResultCode::OK, "".to_string());
    assert_eq!(task_events(Task::Install(dl("1")), TaskOutcome::Installed(Ok(report.clone()))),
               vec![Event::InstallComplete(report)]);
}

#[test]
fn the_response_is_the_last_event() {
    assert_eq!(response_event(vec![Event::DownloadingUpdate("1".to_string()), Event::NoNewUpdates]),
               Some(Event::NoNewUpdates));
    assert_eq!(response_event(Vec::new()), None);
}

#[test]
fn unauthenticated_answers() {
    assert_eq!(unauthenticated_events(Unauthenticated::Refuse, Ok(())), vec![Event::NotAuthenticated]);
    assert_eq!(unauthenticated_events(Unauthenticated::Authenticate, Ok(())), vec![Event::Authenticated]);
    assert_eq!(unauthenticated_events(Unauthenticated::Authenticate, Err(Error::Authorization("no".to_string()))),
               vec![Event::NotAuthenticated]);
    assert_eq!(unauthenticated_events(Unauthenticated::Authenticate, Err(Error::Client("down".to_string()))),
               vec![Event::Error("Http client error: down".to_string())]);
    assert!(unauthenticated_events(Unauthenticated::Shutdown, Ok(())).is_empty());
}
