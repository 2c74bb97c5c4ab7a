//! The interpreters: events lead to commands, commands are carried out and
//! answered with events.

use vstd::prelude::*;
use crate::error::Error;
use crate::event::{DownloadComplete, InstalledSoftware, UpdateReport};
use crate::package::{Package, PackageId};
use crate::package_manager::PackageManager;
use crate::text::str_eq;

verus! {

/// What the client can be asked to do.
#[derive(Debug, PartialEq, Eq, Clone)]
pub enum Command {
    /// Authenticate, optionally with the given client id and secret.
    Authenticate(Option<(String, String)>),
    GetNewUpdates,
    ListInstalledPackages,
    ListSystemInfo,
    SendInstalledPackages(Vec<Package>),
    SendInstalledSoftware(InstalledSoftware),
    SendSystemInfo,
    SendUpdateReport(UpdateReport),
    StartDownload(Vec<String>),
    StartInstall(DownloadComplete),
    Shutdown,
}

/// What happened in the client.
#[derive(Debug, PartialEq, Eq, Clone)]
pub enum Event {
    Authenticated,
    NotAuthenticated,
    NewUpdatesReceived(Vec<String>),
    NoNewUpdates,
    DownloadingUpdate(String),
    DownloadComplete(DownloadComplete),
    DownloadFailed(String, String),
    InstallComplete(UpdateReport),
    InstallFailed(UpdateReport),
    UpdateReportSent,
    FoundInstalledPackages(Vec<Package>),
    FoundSystemInfo(String),
    InstalledPackagesSent,
    InstalledSoftwareSent,
    SystemInfoSent,
    Error(String),
}

/// The commands an event leads to; when `list_packages` is set, the
/// installed packages are listed next and, if that succeeds, sent with
/// `SendInstalledPackages`.
#[derive(Debug)]
pub struct Reaction {
    pub commands: Vec<Command>,
    pub list_packages: bool,
}

/// Listens for events and answers them with commands.
#[derive(Debug)]
pub struct EventInterpreter {
    /// The package manager, `None` when package management is off.
    pub package_manager: Option<PackageManager>,
}

impl EventInterpreter {
    /// The commands `event` leads to: once authenticated, the system
    /// information is sent (and the installed packages listed); failed
    /// authentication is retried; new updates are downloaded; complete
    /// downloads installed; finished installations reported, after which the
    /// installed packages are listed again. Downloads are not installed and
    /// packages not listed when package management is off.
    pub fn interpret(&self, event: Event) -> (r: Reaction)
        ensures
            match event {
                Event::Authenticated => r.commands@ == seq![Command::SendSystemInfo] && r.list_packages
                    == self.package_manager is Some,
                Event::NotAuthenticated => r.commands@ == seq![Command::Authenticate(None)] && !r.list_packages,
                Event::NewUpdatesReceived(ids) => r.commands@ == seq![Command::StartDownload(ids)]
                    && !r.list_packages,
                Event::DownloadComplete(dl) => (if self.package_manager is Some {
                    r.commands@ == seq![Command::StartInstall(dl)]
                } else {
                    r.commands@.len() == 0
                }) && !r.list_packages,
                Event::InstallComplete(report) => r.commands@ == seq![Command::SendUpdateReport(report)]
                    && !r.list_packages,
                Event::UpdateReportSent => r.commands@.len() == 0 && r.list_packages
                    == self.package_manager is Some,
                _ => r.commands@.len() == 0 && !r.list_packages,
            },
    {
        let on = self.package_manager.is_some();
        match event {
            Event::Authenticated => Reaction { commands: vec![Command::SendSystemInfo], list_packages: on },
            Event::NotAuthenticated => Reaction { commands: vec![Command::Authenticate(None)], list_packages: false },
            Event::NewUpdatesReceived(ids) => Reaction {
                commands: vec![Command::StartDownload(ids)],
                list_packages: false,
            },
            Event::DownloadComplete(dl) => {
                if on {
                    Reaction { commands: vec![Command::StartInstall(dl)], list_packages: false }
                } else {
                    Reaction { commands: Vec::new(), list_packages: false }
                }
            },
            Event::InstallComplete(report) => Reaction {
                commands: vec![Command::SendUpdateReport(report)],
                list_packages: false,
            },
            Event::UpdateReportSent => Reaction { commands: Vec::new(), list_packages: on },
            _ => Reaction { commands: Vec::new(), list_packages: false },
        }
    }

    /// The command that follows listing the installed packages: they are
    /// sent when listing succeeded, nothing happens otherwise.
    pub fn packages_listed(&self, listed: Result<Vec<Package>, Error>) -> (r: Option<Command>)
        ensures
            match listed {
                Ok(pkgs) => r == Some(Command::SendInstalledPackages(pkgs)),
                Err(_) => r is None,
            },
    {
        match listed {
            Ok(pkgs) => Some(Command::SendInstalledPackages(pkgs)),
            Err(_) => None,
        }
    }
}

/// A command wrapped for the global interpreter, without a response channel.
#[derive(Debug)]
pub struct CommandInterpreter;

impl CommandInterpreter {
    /// Every command is passed on unchanged.
    pub fn interpret(&self, cmd: Command) -> (r: Command)
        ensures
            r == cmd,
    {
        cmd
    }
}

/// The command a console line names (the line without surrounding blanks);
/// `ListPackages` is another name for `ListInstalledPackages`.
pub open spec fn spec_console_command(name: Seq<char>) -> Option<Command> {
    if name == "Authenticate"@ {
        Some(Command::Authenticate(None))
    } else if name == "GetNewUpdates"@ {
        Some(Command::GetNewUpdates)
    } else if name == "ListInstalledPackages"@ || name == "ListPackages"@ {
        Some(Command::ListInstalledPackages)
    } else if name == "ListSystemInfo"@ {
        Some(Command::ListSystemInfo)
    } else if name == "SendSystemInfo"@ {
        Some(Command::SendSystemInfo)
    } else if name == "Shutdown"@ {
        Some(Command::Shutdown)
    } else {
        None
    }
}

/// The name of a command that takes no argument from the console.
pub open spec fn command_name(c: Command) -> Seq<char> {
    match c {
        Command::Authenticate(_) => "Authenticate"@,
        Command::GetNewUpdates => "GetNewUpdates"@,
        Command::ListInstalledPackages => "ListInstalledPackages"@,
        Command::ListSystemInfo => "ListSystemInfo"@,
        Command::SendSystemInfo => "SendSystemInfo"@,
        Command::Shutdown => "Shutdown"@,
        _ => Seq::empty(),
    }
}

/// The commands that can be typed at the console.
pub open spec fn is_console_command(c: Command) -> bool {
    ||| c == Command::Authenticate(None)
    ||| c == Command::GetNewUpdates
    ||| c == Command::ListInstalledPackages
    ||| c == Command::ListSystemInfo
    ||| c == Command::SendSystemInfo
    ||| c == Command::Shutdown
}

/// The console command names tell apart: each has its own length or its
/// own first character.
proof fn lemma_command_names_distinct()
    ensures
        "Authenticate"@.len() == 12 && "Authenticate"@[0] == 'A',
        "GetNewUpdates"@.len() == 13,
        "ListInstalledPackages"@.len() == 21,
        "ListPackages"@.len() == 12 && "ListPackages"@[0] == 'L',
        "ListSystemInfo"@.len() == 14 && "ListSystemInfo"@[0] == 'L',
        "SendSystemInfo"@.len() == 14 && "SendSystemInfo"@[0] == 'S',
        "Shutdown"@.len() == 8,
{
    reveal_strlit("Authenticate");
    reveal_strlit("GetNewUpdates");
    reveal_strlit("ListInstalledPackages");
    reveal_strlit("ListPackages");
    reveal_strlit("ListSystemInfo");
    reveal_strlit("SendSystemInfo");
    reveal_strlit("Shutdown");
}

/// A console line that spells a command's name gives that command, and a
/// line gives a command only when it spells that command's name, or is
/// `ListPackages`, the other name of `ListInstalledPackages`. So reading the
/// system information and sending it are never confused, and no two names
/// give the same command but the two names of the package listing.
pub proof fn console_names_give_their_commands(c: Command, line: Seq<char>)
    ensures
        is_console_command(c) ==> spec_console_command(command_name(c)) == Some(c),
        spec_console_command(line) == Some(c) ==> is_console_command(c) && (line == command_name(c) || (line
            == "ListPackages"@ && c == Command::ListInstalledPackages)),
{
    lemma_command_names_distinct();
}

/// The command named on a console line, if it names one.
pub fn console_command(name: &str) -> (r: Option<Command>)
    ensures
        r == spec_console_command(name@),
        r matches Some(c) ==> name@ == command_name(c) || name@ == "ListPackages"@,
{
    if str_eq(name, "Authenticate") {
        Some(Command::Authenticate(None))
    } else if str_eq(name, "GetNewUpdates") {
        Some(Command::GetNewUpdates)
    } else if str_eq(name, "ListInstalledPackages") || str_eq(name, "ListPackages") {
        Some(Command::ListInstalledPackages)
    } else if str_eq(name, "ListSystemInfo") {
        Some(Command::ListSystemInfo)
    } else if str_eq(name, "SendSystemInfo") {
        Some(Command::SendSystemInfo)
    } else if str_eq(name, "Shutdown") {
        Some(Command::Shutdown)
    } else {
        None
    }
}

/// Commands are carried out when a token is held or no authentication is
/// configured.
pub fn is_authenticated(token_held: bool, auth_configured: bool) -> (r: bool)
    ensures
        r == (token_held || !auth_configured),
{
    token_held || !auth_configured
}

/// The events broadcast after an unauthenticated interpreter answered a
/// command: an authentication gives `Authenticated` once it succeeded (its
/// failure is mapped as by `finish`), a refused command exactly one
/// `NotAuthenticated`; `Shutdown` stops the client and broadcasts nothing.
pub fn unauthenticated_events(answer: Unauthenticated, authentication: Result<(), Error>) -> (r: Vec<Event>)
    ensures
        match answer {
            Unauthenticated::Authenticate => match authentication {
                Ok(()) => r@ == seq![Event::Authenticated],
                Err(e) => failed_events(r@, e),
            },
            Unauthenticated::Refuse => r@ == seq![Event::NotAuthenticated],
            Unauthenticated::Shutdown => r@.len() == 0,
        },
{
    match answer {
        Unauthenticated::Authenticate => finish(authentication, vec![Event::Authenticated]),
        Unauthenticated::Refuse => vec![Event::NotAuthenticated],
        Unauthenticated::Shutdown => Vec::new(),
    }
}

/// How an unauthenticated interpreter answers a command.
#[derive(Debug, PartialEq, Eq, Clone)]
pub enum Unauthenticated {
    /// Authenticate first.
    Authenticate,
    /// Stop the client.
    Shutdown,
    /// Refuse with `NotAuthenticated`.
    Refuse,
}

/// Without a token, only `Authenticate` and `Shutdown` are carried out;
/// every other command is refused.
pub fn unauthenticated(cmd: &Command) -> (r: Unauthenticated)
    ensures
        cmd is Authenticate ==> r == Unauthenticated::Authenticate,
        cmd is Shutdown ==> r == Unauthenticated::Shutdown,
        !(cmd is Authenticate) && !(cmd is Shutdown) ==> r == Unauthenticated::Refuse,
{
    match cmd {
        Command::Authenticate(_) => Unauthenticated::Authenticate,
        Command::Shutdown => Unauthenticated::Shutdown,
        _ => Unauthenticated::Refuse,
    }
}

/// The work an authenticated interpreter does for a command; the events that
/// follow are given by `new_updates_event`, `download_finished`,
/// `install_finished` and the completion event of each task.
#[derive(Debug, PartialEq, Eq, Clone)]
pub enum Task {
    /// Nothing to do but answer with the event.
    Reply(Event),
    /// Fetch the pending updates, then answer with `new_updates_event`.
    FetchUpdates,
    /// List the installed packages, then answer `FoundInstalledPackages`.
    ListPackages,
    /// Read the system information, then answer `FoundSystemInfo`.
    ListSystemInfo,
    /// Send the packages to the server (failures are only logged), then
    /// answer `InstalledPackagesSent`.
    SendPackages(Vec<Package>),
    /// Send the software through RVI when connected, then answer
    /// `InstalledSoftwareSent`.
    SendSoftware(InstalledSoftware),
    /// Read and send the system information, then answer `SystemInfoSent`.
    SendSystemInfo,
    /// Send the report through RVI when connected, to the server otherwise,
    /// then answer `UpdateReportSent`.
    SendReport(UpdateReport),
    /// For each update: announce `DownloadingUpdate`, then ask RVI for it
    /// when connected, or download it and answer with `download_finished`.
    Download(Vec<String>),
    /// Install the download, then answer with `install_finished`.
    Install(DownloadComplete),
    /// Stop the client.
    Shutdown,
}

/// The work a command takes once authenticated. Listing the packages with
/// package management off answers at once with no packages.
pub fn authenticated_task(cmd: Command, package_management: bool) -> (t: Task)
    ensures
        match cmd {
            Command::Authenticate(_) => t == Task::Reply(Event::Authenticated),
            Command::GetNewUpdates => t == Task::FetchUpdates,
            Command::ListInstalledPackages => if package_management {
                t == Task::ListPackages
            } else {
                t matches Task::Reply(Event::FoundInstalledPackages(p)) && p@.len() == 0
            },
            Command::ListSystemInfo => t == Task::ListSystemInfo,
            Command::SendInstalledPackages(p) => t == Task::SendPackages(p),
            Command::SendInstalledSoftware(sw) => t == Task::SendSoftware(sw),
            Command::SendSystemInfo => t == Task::SendSystemInfo,
            Command::SendUpdateReport(r) => t == Task::SendReport(r),
            Command::StartDownload(ids) => t == Task::Download(ids),
            Command::StartInstall(dl) => t == Task::Install(dl),
            Command::Shutdown => t == Task::Shutdown,
        },
{
    match cmd {
        Command::Authenticate(_) => Task::Reply(Event::Authenticated),
        Command::GetNewUpdates => Task::FetchUpdates,
        Command::ListInstalledPackages => if package_management {
            Task::ListPackages
        } else {
            Task::Reply(Event::FoundInstalledPackages(Vec::new()))
        },
        Command::ListSystemInfo => Task::ListSystemInfo,
        Command::SendInstalledPackages(p) => Task::SendPackages(p),
        Command::SendInstalledSoftware(sw) => Task::SendSoftware(sw),
        Command::SendSystemInfo => Task::SendSystemInfo,
        Command::SendUpdateReport(r) => Task::SendReport(r),
        Command::StartDownload(ids) => Task::Download(ids),
        Command::StartInstall(dl) => Task::Install(dl),
        Command::Shutdown => Task::Shutdown,
    }
}

/// The events broadcast after a command was carried out; the last of them
/// answers the command. On success these are the events the command
/// produced; a refused authorization gives `NotAuthenticated`; any other
/// failure `Error` with its message.
pub fn finish(outcome: Result<(), Error>, events: Vec<Event>) -> (r: Vec<Event>)
    ensures
        match outcome {
            Ok(()) => r@ == events@,
            Err(Error::Authorization(_)) => r@ == seq![Event::NotAuthenticated],
            Err(e) => r@.len() == 1 && (r@[0] matches Event::Error(m) && m@ == e.message_view()),
        },
{
    match outcome {
        Ok(()) => events,
        Err(Error::Authorization(_)) => vec![Event::NotAuthenticated],
        Err(e) => vec![Event::Error(e.message())],
    }
}

/// An update the server holds for the device.
#[derive(Debug, PartialEq, Eq, Clone)]
pub struct PendingUpdateRequest {
    pub request_id: String,
    /// Updates are installed in ascending order of this position.
    pub install_pos: i32,
    pub package_id: PackageId,
    pub created_at: String,
}

/// `x` inserted into `s` behind every element whose position is not larger.
pub open spec fn insert_by_pos(s: Seq<PendingUpdateRequest>, x: PendingUpdateRequest) -> Seq<
    PendingUpdateRequest,
>
    decreases s.len(),
{
    if s.len() == 0 {
        seq![x]
    } else if s.last().install_pos <= x.install_pos {
        s.push(x)
    } else {
        insert_by_pos(s.drop_last(), x).push(s.last())
    }
}

/// The updates in ascending order of install position; updates with equal
/// positions keep their order (a stable sort).
pub open spec fn sort_by_pos(s: Seq<PendingUpdateRequest>) -> Seq<PendingUpdateRequest>
    decreases s.len(),
{
    if s.len() == 0 {
        Seq::empty()
    } else {
        insert_by_pos(sort_by_pos(s.drop_last()), s.last())
    }
}

/// Inserting behind the last element with a position not larger than `x`'s,
/// where every later element has a larger position.
proof fn lemma_insert_at(s: Seq<PendingUpdateRequest>, x: PendingUpdateRequest, j: int)
    requires
        0 <= j <= s.len(),
        forall|k: int| j <= k < s.len() ==> s[k].install_pos > x.install_pos,
        j > 0 ==> s[j - 1].install_pos <= x.install_pos,
    ensures
        insert_by_pos(s, x) == s.insert(j, x),
    decreases s.len(),
{
    if s.len() == 0 {
        assert(s.insert(j, x) =~= seq![x]);
    } else if j == s.len() {
        assert(s.insert(j, x) =~= s.push(x));
    } else {
        lemma_insert_at(s.drop_last(), x, j);
        assert(s.insert(j, x) =~= s.drop_last().insert(j, x).push(s.last()));
    }
}

/// The updates are in ascending order of install position.
pub open spec fn in_install_order(s: Seq<PendingUpdateRequest>) -> bool {
    forall|i: int, j: int| 0 <= i < j < s.len() ==> s[i].install_pos <= s[j].install_pos
}

/// Inserting into an ordered list keeps it ordered and adds the element.
proof fn lemma_insert_by_pos(s: Seq<PendingUpdateRequest>, x: PendingUpdateRequest)
    requires
        in_install_order(s),
    ensures
        in_install_order(insert_by_pos(s, x)),
        insert_by_pos(s, x).to_multiset() == s.to_multiset().insert(x),
        insert_by_pos(s, x).len() == s.len() + 1,
        forall|k: int| 0 <= k < insert_by_pos(s, x).len() ==> (#[trigger] insert_by_pos(s, x)[k] == x || s.contains(insert_by_pos(s, x)[k])),
    decreases s.len(),
{
    broadcast use vstd::seq_lib::group_to_multiset_ensures;

    if s.len() == 0 {
        assert(seq![x] =~= Seq::<PendingUpdateRequest>::empty().push(x));
    } else if s.last().install_pos <= x.install_pos {
    } else {
        let p = s.drop_last();
        lemma_insert_by_pos(p, x);
        let r = insert_by_pos(p, x);
        assert(s =~= p.push(s.last()));
        assert forall|a: int, b: int| 0 <= a < b < r.push(s.last()).len() implies r.push(s.last())[a].install_pos
            <= r.push(s.last())[b].install_pos by {
            if b == r.len() {
                if r[a] != x {
                    assert(p.contains(r[a]));
                    let k = choose|k: int| 0 <= k < p.len() && p[k] == r[a];
                    assert(s[k] == p[k]);
                }
            }
        }
        assert forall|k: int| 0 <= k < r.push(s.last()).len() implies (#[trigger] r.push(s.last())[k] == x || s.contains(
            r.push(s.last())[k],
        )) by {
            if k < r.len() {
                if r[k] != x {
                    let t = choose|t: int| 0 <= t < p.len() && p[t] == r[k];
                    assert(s[t] == p[t]);
                }
            } else {
                assert(s[s.len() - 1] == s.last());
            }
        }
    }
}

/// Pending updates are started in install order, and none is lost or added:
/// the ordered list holds the same updates.
pub proof fn updates_sorted_by_install_position(s: Seq<PendingUpdateRequest>)
    ensures
        in_install_order(sort_by_pos(s)),
        sort_by_pos(s).to_multiset() == s.to_multiset(),
    decreases s.len(),
{
    broadcast use vstd::seq_lib::group_to_multiset_ensures;

    if s.len() > 0 {
        updates_sorted_by_install_position(s.drop_last());
        lemma_insert_by_pos(sort_by_pos(s.drop_last()), s.last());
        assert(s =~= s.drop_last().push(s.last()));
    }
}

/// The ids of the updates, in order.
pub open spec fn request_ids(s: Seq<PendingUpdateRequest>) -> Seq<Seq<char>> {
    s.map_values(|u: PendingUpdateRequest| u.request_id@)
}

/// The ids of strings, in order.
pub open spec fn strings_view(s: Seq<String>) -> Seq<Seq<char>> {
    s.map_values(|x: String| x@)
}

/// The pending updates in install order, sorted stably by position.
pub fn sort_updates(updates: Vec<PendingUpdateRequest>) -> (r: Vec<PendingUpdateRequest>)
    ensures
        r@ == sort_by_pos(updates@),
{
    let mut out: Vec<PendingUpdateRequest> = Vec::new();
    let mut rest = updates;
    let ghost all = rest@;
    let ghost mut taken: Seq<PendingUpdateRequest> = Seq::empty();
    assert(all =~= taken + rest@);
    while rest.len() > 0
        invariant
            all == taken + rest@,
            out@ == sort_by_pos(taken),
        decreases rest.len(),
    {
        let x = rest.remove(0);
        let ghost before = out@;
        let pos = x.install_pos;
        let mut j: usize = out.len();
        while j > 0 && out[j - 1].install_pos > pos
            invariant
                j <= out.len(),
                out@ == before,
                forall|k: int| j <= k < out@.len() ==> out@[k].install_pos > pos,
            decreases j,
        {
            j = j - 1;
        }
        proof {
            lemma_insert_at(before, x, j as int);
        }
        out.insert(j, x);
        proof {
            let t = taken;
            taken = taken.push(x);
            assert(taken.drop_last() =~= t);
        }
        assert(all =~= taken + rest@);
    }
    assert(taken =~= all);
    out
}

/// The answer to a request for new updates: `NoNewUpdates` when there are
/// none, otherwise their ids in install order.
pub fn new_updates_event(updates: Vec<PendingUpdateRequest>) -> (r: Event)
    ensures
        updates@.len() == 0 ==> r == Event::NoNewUpdates,
        updates@.len() > 0 ==> (r matches Event::NewUpdatesReceived(ids) && strings_view(ids@) == request_ids(
            sort_by_pos(updates@),
        )),
{
    if updates.len() == 0 {
        return Event::NoNewUpdates;
    }
    let sorted = sort_updates(updates);
    let mut ids: Vec<String> = Vec::new();
    let mut i: usize = 0;
    while i < sorted.len()
        invariant
            i <= sorted.len(),
            strings_view(ids@) == request_ids(sorted@.take(i as int)),
        decreases sorted.len() - i,
    {
        let id = sorted[i].request_id.clone();
        let ghost before = ids@;
        ids.push(id);
        assert(sorted@.take(i + 1) =~= sorted@.take(i as int).push(sorted@[i as int]));
        assert(strings_view(ids@) =~= strings_view(before).push(id@));
        i = i + 1;
        assert(strings_view(ids@) =~= request_ids(sorted@.take(i as int)));
    }
    assert(sorted@.take(sorted.len() as int) =~= sorted@);
    Event::NewUpdatesReceived(ids)
}

/// The event ending a download: the completed download, or the failure with
/// its message.
pub fn download_finished(id: String, result: Result<DownloadComplete, Error>) -> (r: Event)
    ensures
        match result {
            Ok(dl) => r == Event::DownloadComplete(dl),
            Err(e) => r matches Event::DownloadFailed(i, m) && i == id && m@ == e.message_view(),
        },
{
    match result {
        Ok(dl) => Event::DownloadComplete(dl),
        Err(e) => Event::DownloadFailed(id, e.message()),
    }
}

/// The event ending an installation.
pub fn install_finished(result: Result<UpdateReport, UpdateReport>) -> (r: Event)
    ensures
        match result {
            Ok(report) => r == Event::InstallComplete(report),
            Err(report) => r == Event::InstallFailed(report),
        },
{
    match result {
        Ok(report) => Event::InstallComplete(report),
        Err(report) => Event::InstallFailed(report),
    }
}

/// `ev` ends the download of `id` that gave `result`.
pub open spec fn finished_event(ev: Event, id: String, result: Result<DownloadComplete, Error>) -> bool {
    match result {
        Ok(dl) => ev == Event::DownloadComplete(dl),
        Err(e) => ev matches Event::DownloadFailed(i, m) && i == id && m@ == e.message_view(),
    }
}

/// `events` are those of downloading `ids`: for each id in order,
/// `DownloadingUpdate`; when the updates are downloaded here, the outcome of
/// each follows it; when they are asked for through RVI, nothing follows.
pub open spec fn download_events_are(
    events: Seq<Event>,
    ids: Seq<String>,
    via_rvi: bool,
    results: Seq<Result<DownloadComplete, Error>>,
) -> bool {
    if via_rvi {
        &&& events.len() == ids.len()
        &&& forall|i: int| 0 <= i < ids.len() ==> events[i] == Event::DownloadingUpdate(#[trigger] ids[i])
    } else {
        &&& events.len() == 2 * ids.len()
        &&& forall|i: int|
            0 <= i < ids.len() ==> events[2 * i] == Event::DownloadingUpdate(#[trigger] ids[i]) && finished_event(
                events[2 * i + 1],
                ids[i],
                results[i],
            )
    }
}

/// The events of downloading `ids`; `results` holds the outcome of each
/// download, in the order of `ids`, unless the updates are asked for through
/// RVI (`via_rvi`).
pub fn download_events(ids: Vec<String>, via_rvi: bool, results: Vec<Result<DownloadComplete, Error>>) -> (r: Vec<
    Event,
>)
    requires
        via_rvi || results@.len() == ids@.len(),
    ensures
        download_events_are(r@, ids@, via_rvi, results@),
{
    let ghost all = results@;
    let mut rest = results;
    let mut events: Vec<Event> = Vec::new();
    let mut i: usize = 0;
    while i < ids.len()
        invariant
            i <= ids.len(),
            via_rvi || all.len() == ids@.len(),
            !via_rvi ==> rest@ == all.skip(i as int),
            via_rvi ==> events@.len() == i,
            !via_rvi ==> events@.len() == 2 * i,
            via_rvi ==> forall|j: int| 0 <= j < i ==> events@[j] == Event::DownloadingUpdate(#[trigger] ids@[j]),
            !via_rvi ==> forall|j: int|
                0 <= j < i ==> events@[2 * j] == Event::DownloadingUpdate(#[trigger] ids@[j]) && finished_event(
                    events@[2 * j + 1],
                    ids@[j],
                    all[j],
                ),
        decreases ids.len() - i,
    {
        events.push(Event::DownloadingUpdate(ids[i].clone()));
        if !via_rvi {
            let ghost before = rest@;
            let result = rest.remove(0);
            assert(result == all[i as int]);
            assert(rest@ =~= all.skip(i + 1));
            events.push(download_finished(ids[i].clone(), result));
        }
        i = i + 1;
    }
    events
}

/// What carrying out a task gave, as far as it reached outside the client.
#[derive(Debug)]
pub enum TaskOutcome {
    /// Nothing outside decides the answer: a reply, or a send whose failure
    /// is only logged.
    Done,
    /// The pending updates fetched.
    Updates(Result<Vec<PendingUpdateRequest>, Error>),
    /// The installed packages listed.
    Packages(Result<Vec<Package>, Error>),
    /// The system information read.
    SystemInfo(Result<String, Error>),
    /// The downloads: through RVI, or the outcome of each.
    Downloads { via_rvi: bool, results: Vec<Result<DownloadComplete, Error>> },
    /// The installation.
    Installed(Result<UpdateReport, UpdateReport>),
}

/// `outcome` is of the kind `task` gives.
pub open spec fn outcome_fits(task: Task, outcome: TaskOutcome) -> bool {
    match task {
        Task::Reply(_) => outcome is Done,
        Task::SendPackages(_) => outcome is Done,
        Task::SendSoftware(_) => outcome is Done,
        Task::SendReport(_) => outcome is Done,
        Task::FetchUpdates => outcome is Updates,
        Task::ListPackages => outcome is Packages,
        Task::ListSystemInfo => outcome is SystemInfo,
        Task::SendSystemInfo => outcome is SystemInfo,
        Task::Download(ids) => outcome matches TaskOutcome::Downloads { via_rvi, results } && (via_rvi
            || results@.len() == ids@.len()),
        Task::Install(_) => outcome is Installed,
        Task::Shutdown => false,
    }
}

/// The events broadcast for a failed command.
pub open spec fn failed_events(events: Seq<Event>, e: Error) -> bool {
    match e {
        Error::Authorization(_) => events == seq![Event::NotAuthenticated],
        _ => events.len() == 1 && (events[0] matches Event::Error(m) && m@ == e.message_view()),
    }
}

/// The events broadcast after carrying out `task`, given what that gave.
/// Every task but a download of no updates broadcasts at least one event.
pub fn task_events(task: Task, outcome: TaskOutcome) -> (r: Vec<Event>)
    requires
        outcome_fits(task, outcome),
    ensures
        !(task matches Task::Download(ids) && ids@.len() == 0) ==> r@.len() >= 1,
        match task {
            Task::Reply(ev) => r@ == seq![ev],
            Task::SendPackages(_) => r@ == seq![Event::InstalledPackagesSent],
            Task::SendSoftware(_) => r@ == seq![Event::InstalledSoftwareSent],
            Task::SendReport(_) => r@ == seq![Event::UpdateReportSent],
            Task::FetchUpdates => match outcome {
                TaskOutcome::Updates(Ok(updates)) => r@.len() == 1 && (updates@.len() == 0 ==> r@[0]
                    == Event::NoNewUpdates) && (updates@.len() > 0 ==> (r@[0] matches Event::NewUpdatesReceived(
                    ids,
                ) && strings_view(ids@) == request_ids(sort_by_pos(updates@)))),
                TaskOutcome::Updates(Err(e)) => failed_events(r@, e),
                _ => false,
            },
            Task::ListPackages => match outcome {
                TaskOutcome::Packages(Ok(pkgs)) => r@ == seq![Event::FoundInstalledPackages(pkgs)],
                TaskOutcome::Packages(Err(e)) => failed_events(r@, e),
                _ => false,
            },
            Task::ListSystemInfo => match outcome {
                TaskOutcome::SystemInfo(Ok(info)) => r@ == seq![Event::FoundSystemInfo(info)],
                TaskOutcome::SystemInfo(Err(e)) => failed_events(r@, e),
                _ => false,
            },
            Task::SendSystemInfo => match outcome {
                TaskOutcome::SystemInfo(Ok(_)) => r@ == seq![Event::SystemInfoSent],
                TaskOutcome::SystemInfo(Err(e)) => failed_events(r@, e),
                _ => false,
            },
            Task::Download(ids) => match outcome {
                TaskOutcome::Downloads { via_rvi, results } => download_events_are(r@, ids@, via_rvi, results@),
                _ => false,
            },
            Task::Install(_) => match outcome {
                TaskOutcome::Installed(Ok(report)) => r@ == seq![Event::InstallComplete(report)],
                TaskOutcome::Installed(Err(report)) => r@ == seq![Event::InstallFailed(report)],
                _ => false,
            },
            Task::Shutdown => false,
        },
{
    match task {
        Task::Reply(ev) => vec![ev],
        Task::SendPackages(_) => vec![Event::InstalledPackagesSent],
        Task::SendSoftware(_) => vec![Event::InstalledSoftwareSent],
        Task::SendReport(_) => vec![Event::UpdateReportSent],
        Task::FetchUpdates => match outcome {
            TaskOutcome::Updates(Ok(updates)) => vec![new_updates_event(updates)],
            TaskOutcome::Updates(Err(e)) => finish(Err(e), Vec::new()),
            _ => Vec::new(),
        },
        Task::ListPackages => match outcome {
            TaskOutcome::Packages(Ok(pkgs)) => vec![Event::FoundInstalledPackages(pkgs)],
            TaskOutcome::Packages(Err(e)) => finish(Err(e), Vec::new()),
            _ => Vec::new(),
        },
        Task::ListSystemInfo => match outcome {
            TaskOutcome::SystemInfo(Ok(info)) => vec![Event::FoundSystemInfo(info)],
            TaskOutcome::SystemInfo(Err(e)) => finish(Err(e), Vec::new()),
            _ => Vec::new(),
        },
        Task::SendSystemInfo => match outcome {
            TaskOutcome::SystemInfo(Ok(_)) => vec![Event::SystemInfoSent],
            TaskOutcome::SystemInfo(Err(e)) => finish(Err(e), Vec::new()),
            _ => Vec::new(),
        },
        Task::Download(ids) => match outcome {
            TaskOutcome::Downloads { via_rvi, results } => {
                let r = download_events(ids, via_rvi, results);
                proof {
                    if !via_rvi && r@.len() > 0 {
                        assert(r@.len() >= 1);
                    }
                }
                r
            },
            _ => Vec::new(),
        },
        Task::Install(_) => match outcome {
            TaskOutcome::Installed(result) => vec![install_finished(result)],
            _ => Vec::new(),
        },
        Task::Shutdown => Vec::new(),
    }
}

/// The event that answers a command on its response channel: the last of
/// the events it broadcast.
pub fn response_event(events: Vec<Event>) -> (r: Option<Event>)
    ensures
        events@.len() == 0 ==> r is None,
        events@.len() > 0 ==> r == Some(events@.last()),
{
    let mut events = events;
    events.pop()
}

} // verus!
