//! The package managers the client can drive, how their answers are read and
//! which outcome an installation has.

use vstd::prelude::*;
use crate::error::Error;
use crate::package::{Package, UpdateResultCode};
use crate::text::{is_first_index, chars_eq, chars_of, starts_with, str_contains, contains_seq, find_char, first_index, leading_count, lemma_first_index_unique, str_eq, substring, trim_start_char};

verus! {

/// The result code and the output of an installation.
pub type InstallOutcome = (UpdateResultCode, String);

/// The package managers the client knows.
#[derive(Debug, PartialEq, Eq, Clone)]
pub enum PackageManager {
    /// Debian packages, through `dpkg`.
    Deb,
    /// RPM packages, through `rpm`.
    Rpm,
    /// A test package manager that records packages as lines of a file.
    File { filename: String, succeeds: bool },
    /// OSTree packages, through `otbpkg`.
    OstreeBasic { repodir: String },
}

/// Name and version of a parsed package line.
pub open spec fn package_view(p: Package) -> (Seq<char>, Seq<char>) {
    (p.name@, p.version@)
}

/// A `<name> <version>` line split at its first space; leading single quotes
/// of the name are dropped. `None` when the line holds no space.
pub open spec fn spec_parse_package(line: Seq<char>) -> Option<(Seq<char>, Seq<char>)> {
    if line.contains(' ') {
        let i = first_index(line, ' ');
        Some((trim_start_char(line.take(i), '\''), line.skip(i + 1)))
    } else {
        None
    }
}

/// The error message of a line that is no package.
pub open spec fn bad_package_message(line: Seq<char>) -> Seq<char> {
    "Couldn't parse package: "@ + line
}

/// Parses a `<name> <version>` line. The name runs up to the first space
/// (leading `'` removed, as `dpkg-query` quotes its output), the version is
/// the whole rest of the line.
pub fn parse_package(line: &str) -> (r: Result<Package, Error>)
    ensures
        r is Ok <==> spec_parse_package(line@) is Some,
        r matches Ok(p) ==> Some(package_view(p)) == spec_parse_package(line@),
        r matches Err(e) ==> e matches Error::Parse(m) && m@ == bad_package_message(line@),
{
    let v = chars_of(line);
    match find_char(&v, ' ') {
        Some(i) => {
            proof {
                lemma_first_index_unique(line@, ' ', i as int);
            }
            let name_chars = v.clone();
            let mut head: Vec<char> = Vec::new();
            let mut j: usize = 0;
            while j < i
                invariant
                    j <= i,
                    i < name_chars@.len(),
                    head@ == name_chars@.take(j as int),
                decreases i - j,
            {
                head.push(name_chars[j]);
                j = j + 1;
                assert(head@ =~= name_chars@.take(j as int));
            }
            let k = leading_count(&head, '\'');
            assert(head@ == line@.take(i as int));
            let name = substring(line, k, i);
            assert(name@ =~= head@.skip(k as int));
            let version = substring(line, i + 1, v.len());
            assert(version@ =~= line@.skip(i + 1));
            Ok(Package { name, version })
        },
        None => {
            let msg = String::from_str("Couldn't parse package: ").concat(line);
            Err(Error::Parse(msg))
        },
    }
}

/// A package written as `<name> <version>` reads back as itself, when its
/// name holds no space and does not begin with a quote.
pub proof fn describe_then_parse(name: Seq<char>, version: Seq<char>)
    requires
        !name.contains(' '),
        name.len() == 0 || name[0] != '\'',
    ensures
        spec_parse_package(name + " "@ + version) == Some((name, version)),
{
    let line = name + " "@ + version;
    let i = name.len() as int;
    assert(" "@ =~= seq![' ']) by {
        reveal_strlit(" ");
    }
    assert(line[i] == ' ');
    assert forall|j: int| 0 <= j < i implies line[j] != ' ' by {
        assert(line[j] == name[j]);
    }
    assert(is_first_index(line, ' ', i));
    lemma_first_index_unique(line, ' ', i);
    assert(line.take(i) =~= name);
    assert(line.skip(i + 1) =~= version);
}

/// A line of the test package manager's file holding a name and a version
/// without spaces reads back as that package.
pub proof fn describe_then_read_file_line(name: Seq<char>, version: Seq<char>)
    requires
        !name.contains(' '),
        !version.contains(' '),
    ensures
        spec_file_line(name + " "@ + version) == Some((name, version)),
{
    let line = name + " "@ + version;
    let i = name.len() as int;
    assert(" "@ =~= seq![' ']) by {
        reveal_strlit(" ");
    }
    assert(line[i] == ' ');
    assert forall|j: int| 0 <= j < i implies line[j] != ' ' by {
        assert(line[j] == name[j]);
    }
    lemma_first_index_unique(line, ' ', i);
    assert(line.take(i) =~= name);
    assert(line.skip(i + 1) =~= version);
}

/// Installing with the test package manager appends the package as a line
/// of its file; listing the file afterwards gives the packages listed before
/// followed by the installed one.
pub proof fn file_install_then_list(lines: Seq<Seq<char>>, name: Seq<char>, version: Seq<char>)
    requires
        !name.contains(' '),
        !version.contains(' '),
    ensures
        file_packages(lines.push(name + " "@ + version)) == file_packages(lines).push((name, version)),
{
    describe_then_read_file_line(name, version);
    assert(lines.push(name + " "@ + version).drop_last() =~= lines);
}

/// The lines a run of installs with the test package manager appends, in
/// order: `<name> <version>` of each install that succeeds.
pub open spec fn appended_lines(installs: Seq<(Seq<char>, Seq<char>, bool)>) -> Seq<Seq<char>>
    decreases installs.len(),
{
    if installs.len() == 0 {
        Seq::empty()
    } else {
        let rest = appended_lines(installs.drop_last());
        let (name, version, ok) = installs.last();
        if ok {
            rest.push(name + " "@ + version)
        } else {
            rest
        }
    }
}

/// The packages a run of installs installs, in order: those that succeed.
pub open spec fn installed_by(installs: Seq<(Seq<char>, Seq<char>, bool)>) -> Seq<(Seq<char>, Seq<char>)>
    decreases installs.len(),
{
    if installs.len() == 0 {
        Seq::empty()
    } else {
        let rest = installed_by(installs.drop_last());
        let (name, version, ok) = installs.last();
        if ok {
            rest.push((name, version))
        } else {
            rest
        }
    }
}

/// Installing several packages with the test package manager, some of which
/// fail, then listing its file gives the packages listed before followed by
/// those whose install succeeded, in the order they were installed.
pub proof fn file_installs_then_list(lines: Seq<Seq<char>>, installs: Seq<(Seq<char>, Seq<char>, bool)>)
    requires
        forall|i: int| 0 <= i < installs.len() ==> !(#[trigger] installs[i]).0.contains(' ') && !installs[i].1.contains(' '),
    ensures
        file_packages(lines + appended_lines(installs)) == file_packages(lines) + installed_by(installs),
    decreases installs.len(),
{
    if installs.len() == 0 {
        assert(lines + appended_lines(installs) =~= lines);
        assert(file_packages(lines) + installed_by(installs) =~= file_packages(lines));
    } else {
        let prev = installs.drop_last();
        assert forall|i: int| 0 <= i < prev.len() implies !(#[trigger] prev[i]).0.contains(' ') && !prev[i].1.contains(
            ' ',
        ) by {
            assert(prev[i] == installs[i]);
        }
        file_installs_then_list(lines, prev);
        let (name, version, ok) = installs.last();
        assert(installs.last() == installs[installs.len() - 1]);
        if ok {
            file_install_then_list(lines + appended_lines(prev), name, version);
            assert((lines + appended_lines(prev)).push(name + " "@ + version) =~= lines + appended_lines(installs));
            assert((file_packages(lines) + installed_by(prev)).push((name, version)) =~= file_packages(lines)
                + installed_by(installs));
        }
    }
}

/// The views of a list of lines.
pub open spec fn lines_view(lines: Seq<String>) -> Seq<Seq<char>> {
    lines.map_values(|l: String| l@)
}

/// The views of a list of packages.
pub open spec fn packages_view(pkgs: Seq<Package>) -> Seq<(Seq<char>, Seq<char>)> {
    pkgs.map_values(|p: Package| package_view(p))
}

/// The packages of those lines that parse, in order; the others are skipped.
pub open spec fn lenient_packages(lines: Seq<Seq<char>>) -> Seq<(Seq<char>, Seq<char>)>
    decreases lines.len(),
{
    if lines.len() == 0 {
        Seq::empty()
    } else {
        let rest = lenient_packages(lines.drop_last());
        match spec_parse_package(lines.last()) {
            Some(p) => rest.push(p),
            None => rest,
        }
    }
}

/// The packages of all lines, or the first line that does not parse.
pub open spec fn strict_packages(lines: Seq<Seq<char>>) -> Result<Seq<(Seq<char>, Seq<char>)>, Seq<char>>
    decreases lines.len(),
{
    if lines.len() == 0 {
        Ok(Seq::empty())
    } else {
        match strict_packages(lines.drop_last()) {
            Err(bad) => Err(bad),
            Ok(rest) => match spec_parse_package(lines.last()) {
                Some(p) => Ok(rest.push(p)),
                None => Err(lines.last()),
            },
        }
    }
}

/// A line of the test package manager's file: exactly two fields separated
/// by a single space.
pub open spec fn spec_file_line(line: Seq<char>) -> Option<(Seq<char>, Seq<char>)> {
    if line.contains(' ') {
        let i = first_index(line, ' ');
        if line.skip(i + 1).contains(' ') {
            None
        } else {
            Some((line.take(i), line.skip(i + 1)))
        }
    } else {
        None
    }
}

/// The packages of the lines of the test package manager's file that hold
/// exactly two fields, in order.
pub open spec fn file_packages(lines: Seq<Seq<char>>) -> Seq<(Seq<char>, Seq<char>)>
    decreases lines.len(),
{
    if lines.len() == 0 {
        Seq::empty()
    } else {
        let rest = file_packages(lines.drop_last());
        match spec_file_line(lines.last()) {
            Some(p) => rest.push(p),
            None => rest,
        }
    }
}

/// Parses the lines a package manager printed, skipping those that are no
/// package.
pub fn parse_packages_lenient(lines: &Vec<String>) -> (pkgs: Vec<Package>)
    ensures
        packages_view(pkgs@) == lenient_packages(lines_view(lines@)),
{
    let mut pkgs: Vec<Package> = Vec::new();
    let mut i: usize = 0;
    while i < lines.len()
        invariant
            i <= lines.len(),
            packages_view(pkgs@) == lenient_packages(lines_view(lines@.take(i as int))),
        decreases lines.len() - i,
    {
        let ghost before = lines_view(lines@.take(i as int));
        let r = parse_package(lines[i].as_str());
        proof {
            assert(lines_view(lines@.take(i + 1)).drop_last() =~= before);
            assert(lines_view(lines@.take(i + 1)).last() == lines@[i as int]@);
        }
        match r {
            Ok(p) => {
                pkgs.push(p);
                assert(packages_view(pkgs@) =~= lenient_packages(lines_view(lines@.take(i as int))).push(
                    package_view(p),
                ));
            },
            Err(_) => {},
        }
        i = i + 1;
    }
    assert(lines@.take(lines.len() as int) =~= lines@);
    pkgs
}

/// Parses the lines a package manager printed; every line must be a package.
pub fn parse_packages_strict(lines: &Vec<String>) -> (r: Result<Vec<Package>, Error>)
    ensures
        match strict_packages(lines_view(lines@)) {
            Ok(ps) => r matches Ok(pkgs) && packages_view(pkgs@) == ps,
            Err(bad) => r matches Err(e) && e matches Error::Parse(m) && m@
                == bad_package_message(bad),
        },
{
    let mut pkgs: Vec<Package> = Vec::new();
    let mut i: usize = 0;
    assert(lines_view(lines@.take(0)) =~= Seq::<Seq<char>>::empty());
    assert(packages_view(pkgs@) =~= Seq::<(Seq<char>, Seq<char>)>::empty());
    while i < lines.len()
        invariant
            i <= lines.len(),
            strict_packages(lines_view(lines@.take(i as int))) == Ok::<
                Seq<(Seq<char>, Seq<char>)>,
                Seq<char>,
            >(packages_view(pkgs@)),
        decreases lines.len() - i,
    {
        let ghost before = lines_view(lines@.take(i as int));
        let r = parse_package(lines[i].as_str());
        proof {
            assert(lines_view(lines@.take(i + 1)).drop_last() =~= before);
            assert(lines_view(lines@.take(i + 1)).last() == lines@[i as int]@);
        }
        match r {
            Ok(p) => {
                let ghost old_pkgs = pkgs@;
                pkgs.push(p);
                assert(packages_view(pkgs@) =~= packages_view(old_pkgs).push(package_view(p)));
            },
            Err(e) => {
                proof {
                    assert(lines_view(lines@).take(i + 1) =~= lines_view(lines@.take(i + 1)));
                    lemma_strict_prefix_error(lines_view(lines@), (i + 1) as int);
                }
                return Err(e);
            },
        }
        i = i + 1;
    }
    assert(lines@.take(lines.len() as int) =~= lines@);
    Ok(pkgs)
}

/// Once a prefix of the lines fails to parse, so do all longer prefixes,
/// with the same offending line.
pub proof fn lemma_strict_prefix_error(lines: Seq<Seq<char>>, k: int)
    requires
        0 <= k <= lines.len(),
        strict_packages(lines.take(k)) is Err,
    ensures
        strict_packages(lines) == strict_packages(lines.take(k)),
    decreases lines.len() - k,
{
    if k < lines.len() {
        assert(lines.take(k + 1).drop_last() =~= lines.take(k));
        lemma_strict_prefix_error(lines, k + 1);
    } else {
        assert(lines.take(k) =~= lines);
    }
}

/// Reads the lines of the test package manager's file, skipping those that do
/// not hold exactly two space-separated fields.
pub fn parse_file_packages(lines: &Vec<String>) -> (pkgs: Vec<Package>)
    ensures
        packages_view(pkgs@) == file_packages(lines_view(lines@)),
{
    let mut pkgs: Vec<Package> = Vec::new();
    let mut i: usize = 0;
    while i < lines.len()
        invariant
            i <= lines.len(),
            packages_view(pkgs@) == file_packages(lines_view(lines@.take(i as int))),
        decreases lines.len() - i,
    {
        let ghost before = lines_view(lines@.take(i as int));
        let line = lines[i].as_str();
        let r = parse_file_line(line);
        proof {
            assert(lines_view(lines@.take(i + 1)).drop_last() =~= before);
            assert(lines_view(lines@.take(i + 1)).last() == lines@[i as int]@);
        }
        match r {
            Some(p) => {
                pkgs.push(p);
                assert(packages_view(pkgs@) =~= file_packages(before).push(package_view(p)));
            },
            None => {},
        }
        i = i + 1;
    }
    assert(lines@.take(lines.len() as int) =~= lines@);
    pkgs
}

/// Splits a line of the test package manager's file into name and version.
pub fn parse_file_line(line: &str) -> (r: Option<Package>)
    ensures
        r is Some <==> spec_file_line(line@) is Some,
        r matches Some(p) ==> Some(package_view(p)) == spec_file_line(line@),
{
    let v = chars_of(line);
    match find_char(&v, ' ') {
        Some(i) => {
            proof {
                lemma_first_index_unique(line@, ' ', i as int);
            }
            let n = v.len();
            let rest = substring(line, i + 1, n);
            assert(rest@ =~= line@.skip(i + 1));
            let rv = chars_of(rest.as_str());
            match find_char(&rv, ' ') {
                Some(_) => None,
                None => {
                    let name = substring(line, 0, i);
                    assert(name@ =~= line@.take(i as int));
                    Some(Package { name, version: rest })
                },
            }
        },
        None => None,
    }
}

/// The abstract value of a package manager.
pub enum ManagerView {
    Deb,
    Rpm,
    File { filename: Seq<char>, succeeds: bool },
    OstreeBasic { repodir: Seq<char> },
}

impl View for PackageManager {
    type V = ManagerView;

    open spec fn view(&self) -> ManagerView {
        match self {
            PackageManager::Deb => ManagerView::Deb,
            PackageManager::Rpm => ManagerView::Rpm,
            PackageManager::File { filename, succeeds } => ManagerView::File {
                filename: filename@,
                succeeds: *succeeds,
            },
            PackageManager::OstreeBasic { repodir } => ManagerView::OstreeBasic { repodir: repodir@ },
        }
    }
}

/// The lowercase form of a string, as `str::to_lowercase` computes it.
pub uninterp spec fn lowercase(s: Seq<char>) -> Seq<char>;

/// Calls `str::to_lowercase` of std; the result is `lowercase` of the argument.
#[verifier::external_body]
fn to_lowercase(s: &str) -> (r: String)
    ensures
        r@ == lowercase(s@),
{
    s.to_lowercase()
}

/// The package manager a lowercased configuration value names: `deb`, `rpm`,
/// `file:<filename>` (non-empty filename) or `otb:<repodir>` (non-empty
/// directory).
pub open spec fn spec_manager_named(lower: Seq<char>) -> Option<ManagerView> {
    if lower == "deb"@ {
        Some(ManagerView::Deb)
    } else if lower == "rpm"@ {
        Some(ManagerView::Rpm)
    } else if lower.len() > 5 && lower.take(5) == "file:"@ {
        Some(ManagerView::File { filename: lower.skip(5), succeeds: true })
    } else if lower.len() > 4 && lower.take(4) == "otb:"@ {
        Some(ManagerView::OstreeBasic { repodir: lower.skip(4) })
    } else {
        None
    }
}

/// The error message of an unknown package manager.
pub open spec fn unknown_manager_message(s: Seq<char>) -> Seq<char> {
    "unknown package manager: "@ + s
}

/// The extension that downloaded packages of a manager carry.
pub open spec fn spec_extension(m: ManagerView) -> Seq<char> {
    match m {
        ManagerView::Deb => "deb"@,
        ManagerView::Rpm => "rpm"@,
        ManagerView::File { filename, .. } => filename,
        ManagerView::OstreeBasic { .. } => "otb"@,
    }
}

impl PackageManager {
    /// Reads a package manager from a configuration value, ignoring case.
    pub fn from_str(s: &str) -> (r: Result<PackageManager, Error>)
        ensures
            r is Ok <==> spec_manager_named(lowercase(s@)) is Some,
            r matches Ok(m) ==> Some(m@) == spec_manager_named(lowercase(s@)),
            r matches Err(e) ==> e matches Error::Parse(msg) && msg@ == unknown_manager_message(s@),
    {
        let lower = to_lowercase(s);
        PackageManager::from_lowercased(s, lower.as_str())
    }

    /// Reads a package manager from the lowercased form `lower` of the
    /// configuration value `s`.
    pub fn from_lowercased(s: &str, lower: &str) -> (r: Result<PackageManager, Error>)
        ensures
            r is Ok <==> spec_manager_named(lower@) is Some,
            r matches Ok(m) ==> Some(m@) == spec_manager_named(lower@),
            r matches Err(e) ==> e matches Error::Parse(msg) && msg@ == unknown_manager_message(s@),
    {
        let v = chars_of(lower);
        let n = v.len();
        if chars_eq(&v, &chars_of("deb")) {
            Ok(PackageManager::Deb)
        } else if chars_eq(&v, &chars_of("rpm")) {
            Ok(PackageManager::Rpm)
        } else if n > 5 && starts_with(&v, &chars_of("file:")) {
            proof {
                reveal_strlit("file:");
            }
            let filename = substring(lower, 5, n);
            assert(filename@ =~= lower@.skip(5));
            Ok(PackageManager::File { filename, succeeds: true })
        } else if n > 4 && starts_with(&v, &chars_of("otb:")) {
            proof {
                reveal_strlit("otb:");
                reveal_strlit("file:");
            }
            let repodir = substring(lower, 4, n);
            assert(repodir@ =~= lower@.skip(4));
            Ok(PackageManager::OstreeBasic { repodir })
        } else {
            proof {
                reveal_strlit("otb:");
                reveal_strlit("file:");
            }
            Err(Error::Parse(String::from_str("unknown package manager: ").concat(s)))
        }
    }

    /// Reads the package management setting: `off`, in any case, turns
    /// package management off; any other value names a package manager.
    pub fn package_management(s: &str) -> (r: Result<Option<PackageManager>, Error>)
        ensures
            lowercase(s@) == "off"@ ==> r matches Ok(None),
            lowercase(s@) != "off"@ ==> match r {
                Ok(Some(m)) => Some(m@) == spec_manager_named(lowercase(s@)),
                Ok(None) => false,
                Err(e) => spec_manager_named(lowercase(s@)) is None && (e matches Error::Parse(msg) && msg@
                    == unknown_manager_message(s@)),
            },
    {
        let lower = to_lowercase(s);
        if str_eq(lower.as_str(), "off") {
            Ok(None)
        } else {
            match PackageManager::from_lowercased(s, lower.as_str()) {
                Ok(m) => Ok(Some(m)),
                Err(e) => Err(e),
            }
        }
    }

    /// The extension of package files for this manager.
    pub fn extension(&self) -> (e: String)
        ensures
            e@ == spec_extension(self@),
    {
        match self {
            PackageManager::Deb => String::from_str("deb"),
            PackageManager::Rpm => String::from_str("rpm"),
            PackageManager::File { filename, .. } => String::from_str(filename.as_str()),
            PackageManager::OstreeBasic { .. } => String::from_str("otb"),
        }
    }
}

/// What a process that a package manager ran reported.
#[derive(Debug)]
pub struct CommandOutput {
    /// The exit code; `None` when the process was ended by a signal.
    pub code: Option<i32>,
    pub stdout: String,
    pub stderr: String,
}

/// What has to be done to install a package file.
#[derive(Debug)]
pub enum InstallStep {
    /// The outcome is known without doing anything.
    Done(Result<InstallOutcome, InstallOutcome>),
    /// Append `line` to the file at `path`, then see `file_append_outcome`.
    AppendLine { path: String, line: String },
    /// Run `program` with `args`, then see `PackageManager::command_outcome`.
    Run { program: String, args: Vec<String> },
}

/// How the list of installed packages is obtained.
#[derive(Debug)]
pub enum PackagesQuery {
    /// Run `program` with `args` and read its standard output line by line.
    Run { program: String, args: Vec<String> },
    /// Read the lines of the file at `path`.
    ReadLines { path: String },
}

/// An installation outcome as plain values.
pub open spec fn outcome_view(r: Result<InstallOutcome, InstallOutcome>) -> Result<
    (UpdateResultCode, Seq<char>),
    (UpdateResultCode, Seq<char>),
> {
    match r {
        Ok((c, t)) => Ok((c, t@)),
        Err((c, t)) => Err((c, t@)),
    }
}

/// The outcome of `dpkg` and `otbpkg`: success on exit code 0, where output
/// mentioning "already installed" means nothing was done.
pub open spec fn spec_dpkg_outcome(code: Option<i32>, stdout: Seq<char>, stderr: Seq<char>) -> Result<
    (UpdateResultCode, Seq<char>),
    (UpdateResultCode, Seq<char>),
> {
    if code == Some(0i32) {
        if contains_seq(stdout, "already installed"@) {
            Ok((UpdateResultCode::ALREADY_PROCESSED, stdout))
        } else {
            Ok((UpdateResultCode::OK, stdout))
        }
    } else {
        Err((UpdateResultCode::INSTALL_FAILED, "stdout: "@ + stdout + "\nstderr: "@ + stderr))
    }
}

/// The outcome of `rpm`: success on exit code 0; a failure whose error output
/// mentions "already installed" means nothing was done.
pub open spec fn spec_rpm_outcome(code: Option<i32>, stdout: Seq<char>, stderr: Seq<char>) -> Result<
    (UpdateResultCode, Seq<char>),
    (UpdateResultCode, Seq<char>),
> {
    if code == Some(0i32) {
        Ok((UpdateResultCode::OK, stdout))
    } else if contains_seq(stderr, "already installed"@) {
        Ok((UpdateResultCode::ALREADY_PROCESSED, stderr))
    } else {
        Err((UpdateResultCode::INSTALL_FAILED, stderr))
    }
}

/// For `dpkg` and `otbpkg` the exit code alone decides whether an
/// installation succeeded: exit code 0 is a success whatever the error
/// output holds, reported with the standard output, as `ALREADY_PROCESSED`
/// exactly when that mentions "already installed" and as `OK` otherwise;
/// any other exit, or none, is an `INSTALL_FAILED` failure. The error output
/// only ever shows in a failure's text.
pub proof fn dpkg_exit_code_decides(code: Option<i32>, stdout: Seq<char>, stderr: Seq<char>, other: Seq<char>)
    ensures
        spec_dpkg_outcome(code, stdout, stderr) is Ok <==> code == Some(0i32),
        code == Some(0i32) ==> spec_dpkg_outcome(code, stdout, stderr) == spec_dpkg_outcome(code, stdout, other),
        code == Some(0i32) ==> (spec_dpkg_outcome(code, stdout, stderr) matches Ok((c, text)) && text == stdout && (
        c == UpdateResultCode::ALREADY_PROCESSED) == contains_seq(stdout, "already installed"@) && (c
            == UpdateResultCode::OK || c == UpdateResultCode::ALREADY_PROCESSED)),
        code != Some(0i32) ==> (spec_dpkg_outcome(code, stdout, stderr) matches Err((c, _)) && c
            == UpdateResultCode::INSTALL_FAILED),
{
}

/// Classifies what `dpkg` or `otbpkg` reported after an installation.
pub fn dpkg_outcome(out: &CommandOutput) -> (r: Result<InstallOutcome, InstallOutcome>)
    ensures
        outcome_view(r) == spec_dpkg_outcome(out.code, out.stdout@, out.stderr@),
        r is Ok <==> out.code == Some(0i32),
{
    match out.code {
        Some(0) => {
            if str_contains(out.stdout.as_str(), "already installed") {
                Ok((UpdateResultCode::ALREADY_PROCESSED, String::from_str(out.stdout.as_str())))
            } else {
                Ok((UpdateResultCode::OK, String::from_str(out.stdout.as_str())))
            }
        },
        _ => {
            let text = String::from_str("stdout: ").concat(out.stdout.as_str()).concat(
                "\nstderr: ",
            ).concat(out.stderr.as_str());
            Err((UpdateResultCode::INSTALL_FAILED, text))
        },
    }
}

/// Classifies what `rpm` reported after an installation.
pub fn rpm_outcome(out: &CommandOutput) -> (r: Result<InstallOutcome, InstallOutcome>)
    ensures
        outcome_view(r) == spec_rpm_outcome(out.code, out.stdout@, out.stderr@),
{
    match out.code {
        Some(0) => Ok((UpdateResultCode::OK, String::from_str(out.stdout.as_str()))),
        _ => {
            if str_contains(out.stderr.as_str(), "already installed") {
                Ok((UpdateResultCode::ALREADY_PROCESSED, String::from_str(out.stderr.as_str())))
            } else {
                Err((UpdateResultCode::INSTALL_FAILED, String::from_str(out.stderr.as_str())))
            }
        },
    }
}

/// The outcome when the installer process could not be started at all.
pub fn spawn_failure_outcome(detail: String) -> (r: Result<InstallOutcome, InstallOutcome>)
    ensures
        outcome_view(r) == Err::<(UpdateResultCode, Seq<char>), (UpdateResultCode, Seq<char>)>(
            (UpdateResultCode::GENERAL_ERROR, detail@),
        ),
{
    Err((UpdateResultCode::GENERAL_ERROR, detail))
}

/// The outcome of the test package manager once the line was appended
/// (`Ok`) or appending failed (`Err` with the error's description).
pub fn file_append_outcome(written: Result<(), String>) -> (r: Result<InstallOutcome, InstallOutcome>)
    ensures
        written is Ok ==> outcome_view(r) == Ok::<
            (UpdateResultCode, Seq<char>),
            (UpdateResultCode, Seq<char>),
        >((UpdateResultCode::OK, Seq::empty())),
        written matches Err(d) ==> outcome_view(r) == Err::<
            (UpdateResultCode, Seq<char>),
            (UpdateResultCode, Seq<char>),
        >((UpdateResultCode::INSTALL_FAILED, d@)),
{
    match written {
        Ok(()) => Ok((UpdateResultCode::OK, String::new())),
        Err(d) => Err((UpdateResultCode::INSTALL_FAILED, d)),
    }
}

/// The views of a list of arguments.
pub open spec fn args_view(args: Seq<String>) -> Seq<Seq<char>> {
    args.map_values(|a: String| a@)
}

impl PackageManager {
    /// What installing the package file at `path` takes.
    pub fn install_step(&self, path: &str) -> (step: InstallStep)
        ensures
            match self@ {
                ManagerView::Deb => step matches InstallStep::Run { program, args } && program@ == "dpkg"@
                    && args_view(args@) == seq!["-E"@, "-i"@, path@],
                ManagerView::Rpm => step matches InstallStep::Run { program, args } && program@ == "rpm"@
                    && args_view(args@) == seq!["-ivh"@, path@],
                ManagerView::OstreeBasic { repodir } => step matches InstallStep::Run { program, args }
                    && program@ == "otbpkg"@ && args_view(args@) == seq![
                    "--install"@,
                    "--repo="@ + repodir,
                    path@,
                ],
                ManagerView::File { filename, succeeds } => if succeeds {
                    step matches InstallStep::AppendLine { path: file, line } && file@ == filename
                        && line@ == path@ + "\n"@
                } else {
                    step matches InstallStep::Done(r) && outcome_view(r) == Err::<
                        (UpdateResultCode, Seq<char>),
                        (UpdateResultCode, Seq<char>),
                    >((UpdateResultCode::INSTALL_FAILED, "failed"@))
                },
            },
    {
        match self {
            PackageManager::Deb => {
                let args = vec![String::from_str("-E"), String::from_str("-i"), String::from_str(path)];
                assert(args_view(args@) =~= seq!["-E"@, "-i"@, path@]);
                InstallStep::Run { program: String::from_str("dpkg"), args }
            },
            PackageManager::Rpm => {
                let args = vec![String::from_str("-ivh"), String::from_str(path)];
                assert(args_view(args@) =~= seq!["-ivh"@, path@]);
                InstallStep::Run { program: String::from_str("rpm"), args }
            },
            PackageManager::OstreeBasic { repodir } => {
                let args = vec![
                    String::from_str("--install"),
                    String::from_str("--repo=").concat(repodir.as_str()),
                    String::from_str(path),
                ];
                assert(args_view(args@) =~= seq!["--install"@, "--repo="@ + repodir@, path@]);
                InstallStep::Run { program: String::from_str("otbpkg"), args }
            },
            PackageManager::File { filename, succeeds } => {
                if *succeeds {
                    InstallStep::AppendLine {
                        path: String::from_str(filename.as_str()),
                        line: String::from_str(path).concat("\n"),
                    }
                } else {
                    InstallStep::Done(Err((UpdateResultCode::INSTALL_FAILED, String::from_str("failed"))))
                }
            },
        }
    }

    /// The outcome of an installation from what the installer process
    /// reported (the test package manager runs no process).
    pub fn command_outcome(&self, out: &CommandOutput) -> (r: Result<InstallOutcome, InstallOutcome>)
        requires
            !(self@ is File),
        ensures
            self@ is Rpm ==> outcome_view(r) == spec_rpm_outcome(out.code, out.stdout@, out.stderr@),
            !(self@ is Rpm) ==> outcome_view(r) == spec_dpkg_outcome(out.code, out.stdout@, out.stderr@),
    {
        match self {
            PackageManager::Rpm => rpm_outcome(out),
            _ => dpkg_outcome(out),
        }
    }

    /// How the installed packages are listed.
    pub fn installed_packages_query(&self) -> (q: PackagesQuery)
        ensures
            match self@ {
                ManagerView::Deb => q matches PackagesQuery::Run { program, args } && program@
                    == "dpkg-query"@ && args_view(args@) == seq!["-f='${Package} ${Version}\n'"@, "-W"@],
                ManagerView::Rpm => q matches PackagesQuery::Run { program, args } && program@ == "rpm"@
                    && args_view(args@) == seq!["-qa"@, "--queryformat"@, "%{NAME} %{SIZE}\n"@],
                ManagerView::OstreeBasic { repodir } => q matches PackagesQuery::Run { program, args }
                    && program@ == "otbpkg"@ && args_view(args@) == seq!["--repo="@ + repodir, "--query"@],
                ManagerView::File { filename, .. } => q matches PackagesQuery::ReadLines { path }
                    && path@ == filename,
            },
    {
        match self {
            PackageManager::Deb => {
                let args = vec![String::from_str("-f='${Package} ${Version}\n'"), String::from_str("-W")];
                assert(args_view(args@) =~= seq!["-f='${Package} ${Version}\n'"@, "-W"@]);
                PackagesQuery::Run { program: String::from_str("dpkg-query"), args }
            },
            PackageManager::Rpm => {
                let args = vec![
                    String::from_str("-qa"),
                    String::from_str("--queryformat"),
                    String::from_str("%{NAME} %{SIZE}\n"),
                ];
                assert(args_view(args@) =~= seq!["-qa"@, "--queryformat"@, "%{NAME} %{SIZE}\n"@]);
                PackagesQuery::Run { program: String::from_str("rpm"), args }
            },
            PackageManager::OstreeBasic { repodir } => {
                let args = vec![String::from_str("--repo=").concat(repodir.as_str()), String::from_str("--query")];
                assert(args_view(args@) =~= seq!["--repo="@ + repodir@, "--query"@]);
                PackagesQuery::Run { program: String::from_str("otbpkg"), args }
            },
            PackageManager::File { filename, .. } => PackagesQuery::ReadLines {
                path: String::from_str(filename.as_str()),
            },
        }
    }

    /// The installed packages, read from the lines the query produced:
    /// `dpkg` and `otbpkg` lines that are no package are skipped, `rpm` lines
    /// must all be packages, and the test manager's file keeps lines of
    /// exactly two fields.
    pub fn packages_from_lines(&self, lines: &Vec<String>) -> (r: Result<Vec<Package>, Error>)
        ensures
            match self@ {
                ManagerView::Rpm => match strict_packages(lines_view(lines@)) {
                    Ok(ps) => r matches Ok(pkgs) && packages_view(pkgs@) == ps,
                    Err(bad) => r matches Err(e) && e matches Error::Parse(m) && m@
                        == bad_package_message(bad),
                },
                ManagerView::File { .. } => r matches Ok(pkgs) && packages_view(pkgs@) == file_packages(
                    lines_view(lines@),
                ),
                _ => r matches Ok(pkgs) && packages_view(pkgs@) == lenient_packages(lines_view(lines@)),
            },
    {
        match self {
            PackageManager::Rpm => parse_packages_strict(lines),
            PackageManager::File { .. } => Ok(parse_file_packages(lines)),
            _ => Ok(parse_packages_lenient(lines)),
        }
    }
}

} // verus!
