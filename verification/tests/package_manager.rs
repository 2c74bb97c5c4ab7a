use sota::error::Error;
use sota::package::{Package, UpdateResultCode};
use sota::package_manager::{
    dpkg_outcome, file_append_outcome, parse_file_line, parse_package, parse_packages_lenient,
    parse_packages_strict, rpm_outcome, spawn_failure_outcome, CommandOutput, InstallStep,
    PackageManager, PackagesQuery,
};

fn pkg(name: &str, version: &str) -> Package {
    Package { name: name.to_string(), version: version.to_string() }
}

fn lines(ls: &[&str]) -> Vec<String> {
    ls.iter().map(|l| l.to_string()).collect()
}

#[test]
fn test_parses_normal_package() {
    assert_eq!(parse_package("uuid-runtime 2.20.1-5.1ubuntu20.7").unwrap(),
               Package {
                   name: "uuid-runtime".to_string(),
                   version: "2.20.1-5.1ubuntu20.7".to_string()
               });
}

#[test]
fn test_separates_name_and_version_correctly() {
    assert_eq!(parse_package("vim 2.1 foobar").unwrap(),
               Package {
                   name: "vim".to_string(),
                   version: "2.1 foobar".to_string()
               });
}

#[test]
fn test_rejects_bogus_input() {
    assert_eq!(parse_package("foobar").unwrap_err().message(),
               "Parse error: Couldn't parse package: foobar".to_string());
}

#[test]
fn parse_package_strips_leading_quotes_of_the_name_only() {
    assert_eq!(parse_package("''apt 1.0'").unwrap(), pkg("apt", "1.0'"));
    assert_eq!(parse_package(" 1.0").unwrap(), pkg("", "1.0"));
    assert_eq!(parse_package("a ").unwrap(), pkg("a", ""));
}

#[test]
fn package_descriptions() {
    assert_eq!(pkg("vim", "8.0").describe(), "vim 8.0");
    let id = sota::package::PackageId { name: "vim".to_string(), version: "8.0".to_string() };
    assert_eq!(id.describe(), "vim-8.0");
}

#[test]
fn lenient_parsing_skips_bad_lines() {
    let got = parse_packages_lenient(&lines(&["'a 1'", "bogus", "b 2 3"]));
    assert_eq!(got, vec![pkg("a", "1'"), pkg("b", "2 3")]);
    assert_eq!(parse_packages_lenient(&Vec::new()), Vec::<Package>::new());
}

#[test]
fn strict_parsing_fails_on_the_first_bad_line() {
    let got = parse_packages_strict(&lines(&["a 1", "bad", "worse"]));
    assert_eq!(got.unwrap_err(), Error::Parse("Couldn't parse package: bad".to_string()));
    assert_eq!(parse_packages_strict(&lines(&["a 1", "b 2"])).unwrap(), vec![pkg("a", "1"), pkg("b", "2")]);
}

#[test]
fn file_lines_need_exactly_two_fields() {
    assert_eq!(parse_file_line("apa 0.0.0"), Some(pkg("apa", "0.0.0")));
    assert_eq!(parse_file_line("cepa-2.0.0"), None);
    assert_eq!(parse_file_line("a b c"), None);
    assert_eq!(parse_file_line("a "), Some(pkg("a", "")));
}

#[test]
fn get_installed_packages() {
    let mgr = PackageManager::File { filename: "/tmp/tpm".to_string(), succeeds: true };
    let got = mgr.packages_from_lines(&lines(&["apa 0.0.0", "bepa 1.0.0"])).unwrap();
    assert_eq!(got, vec![pkg("apa", "0.0.0"), pkg("bepa", "1.0.0")]);
}

#[test]
fn ignore_bad_installed_packages() {
    let mgr = PackageManager::File { filename: "/tmp/tpm".to_string(), succeeds: true };
    assert_eq!(mgr.packages_from_lines(&lines(&["cepa-2.0.0"])).unwrap(), Vec::new());
}

/// Installs `pkg` with the test package manager whose file holds `file`.
fn tpm_install(mgr: &PackageManager, file: &mut String, pkg: &str) -> Result<(), ()> {
    match mgr.install_step(pkg) {
        InstallStep::AppendLine { line, .. } => {
            file.push_str(&line);
            file_append_outcome(Ok(())).map(|_| ()).map_err(|_| ())
        }
        InstallStep::Done(outcome) => outcome.map(|_| ()).map_err(|_| ()),
        InstallStep::Run { .. } => Err(()),
    }
}

fn file_lines(file: &str) -> Vec<String> {
    file.lines().map(|l| l.to_string()).collect()
}

#[test]
fn install_packages() {
    let mgr = PackageManager::File { filename: "/tmp/tpm".to_string(), succeeds: true };
    let mut file = String::new();
    tpm_install(&mgr, &mut file, "apa 0.0.0").unwrap();
    tpm_install(&mgr, &mut file, "bepa 1.0.0").unwrap();
    assert_eq!(mgr.packages_from_lines(&file_lines(&file)).unwrap(), vec![pkg("apa", "0.0.0"), pkg("bepa", "1.0.0")]);
}

#[test]
fn failed_installation() {
    let failing = PackageManager::File { filename: "/tmp/tpm".to_string(), succeeds: false };
    let working = PackageManager::File { filename: "/tmp/tpm".to_string(), succeeds: true };
    let mut file = String::new();
    assert!(tpm_install(&failing, &mut file, "apa 0.0.0").is_err());
    tpm_install(&working, &mut file, "bepa 1.0.0").unwrap();
    assert_eq!(working.packages_from_lines(&file_lines(&file)).unwrap(), vec![pkg("bepa", "1.0.0")]);
}

#[test]
fn rpm_listing_is_strict_and_dpkg_listing_lenient() {
    let ls = lines(&["a 1", "junk"]);
    assert!(PackageManager::Rpm.packages_from_lines(&ls).is_err());
    assert_eq!(PackageManager::Deb.packages_from_lines(&ls).unwrap(), vec![pkg("a", "1")]);
    let otb = PackageManager::OstreeBasic { repodir: "/r".to_string() };
    assert_eq!(otb.packages_from_lines(&ls).unwrap(), vec![pkg("a", "1")]);
}

#[test]
fn package_managers_from_config_values() {
    assert_eq!(PackageManager::from_str("deb").unwrap(), PackageManager::Deb);
    assert_eq!(PackageManager::from_str("RPM").unwrap(), PackageManager::Rpm);
    assert_eq!(PackageManager::from_str("file:/tmp/X").unwrap(),
               PackageManager::File { filename: "/tmp/x".to_string(), succeeds: true });
    assert_eq!(PackageManager::from_str("otb:/repo").unwrap(),
               PackageManager::OstreeBasic { repodir: "/repo".to_string() });
    assert_eq!(PackageManager::from_str("file:").unwrap_err().message(),
               "Parse error: unknown package manager: file:");
    assert_eq!(PackageManager::from_str("otb:").unwrap_err(),
               Error::Parse("unknown package manager: otb:".to_string()));
    assert!(PackageManager::from_str("apt").is_err());
}

#[test]
fn extensions() {
    assert_eq!(PackageManager::Deb.extension(), "deb");
    assert_eq!(PackageManager::Rpm.extension(), "rpm");
    assert_eq!(PackageManager::OstreeBasic { repodir: "/r".to_string() }.extension(), "otb");
    assert_eq!(PackageManager::File { filename: "f".to_string(), succeeds: false }.extension(), "f");
}

fn out(code: Option<i32>, stdout: &str, stderr: &str) -> CommandOutput {
    CommandOutput { code, stdout: stdout.to_string(), stderr: stderr.to_string() }
}

#[test]
fn dpkg_outcomes() {
    assert_eq!(dpkg_outcome(&out(Some(0), "done", "")), Ok((UpdateResultCode::OK, "done".to_string())));
    assert_eq!(dpkg_outcome(&out(Some(0), "x already installed y", "")),
               Ok((UpdateResultCode::ALREADY_PROCESSED, "x already installed y".to_string())));
    assert_eq!(dpkg_outcome(&out(Some(1), "o", "e")),
               Err((UpdateResultCode::INSTALL_FAILED, "stdout: o\nstderr: e".to_string())));
    assert_eq!(dpkg_outcome(&out(None, "", "")),
               Err((UpdateResultCode::INSTALL_FAILED, "stdout: \nstderr: ".to_string())));
}

#[test]
fn rpm_outcomes() {
    assert_eq!(rpm_outcome(&out(Some(0), "ok", "already installed")), Ok((UpdateResultCode::OK, "ok".to_string())));
    assert_eq!(rpm_outcome(&out(Some(1), "", "package already installed")),
               Ok((UpdateResultCode::ALREADY_PROCESSED, "package already installed".to_string())));
    assert_eq!(rpm_outcome(&out(Some(2), "", "broken")),
               Err((UpdateResultCode::INSTALL_FAILED, "broken".to_string())));
}

#[test]
fn other_outcomes() {
    assert_eq!(spawn_failure_outcome("gone".to_string()), Err((UpdateResultCode::GENERAL_ERROR, "gone".to_string())));
    assert_eq!(file_append_outcome(Ok(())), Ok((UpdateResultCode::OK, "".to_string())));
    assert_eq!(file_append_outcome(Err("disk".to_string())), Err((UpdateResultCode::INSTALL_FAILED, "disk".to_string())));
}

#[test]
fn install_steps() {
    match PackageManager::Deb.install_step("/p.deb") {
        InstallStep::Run { program, args } => {
            assert_eq!(program, "dpkg");
            assert_eq!(args, vec!["-E", "-i", "/p.deb"]);
        }
        other => panic!("unexpected {:?}", other),
    }
    match (PackageManager::OstreeBasic { repodir: "/r".to_string() }).install_step("/p") {
        InstallStep::Run { program, args } => {
            assert_eq!(program, "otbpkg");
            assert_eq!(args, vec!["--install", "--repo=/r", "/p"]);
        }
        other => panic!("unexpected {:?}", other),
    }
    match (PackageManager::File { filename: "/t".to_string(), succeeds: true }).install_step("apa 0.0.0") {
        InstallStep::AppendLine { path, line } => {
            assert_eq!(path, "/t");
            assert_eq!(line, "apa 0.0.0\n");
        }
        other => panic!("unexpected {:?}", other),
    }
    match (PackageManager::File { filename: "/t".to_string(), succeeds: false }).install_step("x") {
        InstallStep::Done(r) => assert_eq!(r, Err((UpdateResultCode::INSTALL_FAILED, "failed".to_string()))),
        other => panic!("unexpected {:?}", other),
    }
}

#[test]
fn package_queries() {
    match PackageManager::Rpm.installed_packages_query() {
        PackagesQuery::Run { program, args } => {
            assert_eq!(program, "rpm");
            assert_eq!(args, vec!["-qa", "--queryformat", "%{NAME} %{SIZE}\n"]);
        }
        other => panic!("unexpected {:?}", other),
    }
    match PackageManager::Deb.installed_packages_query() {
        PackagesQuery::Run { program, args } => {
            assert_eq!(program, "dpkg-query");
            assert_eq!(args, vec!["-f='${Package} ${Version}\n'", "-W"]);
        }
        other => panic!("unexpected {:?}", other),
    }
    match (PackageManager::File { filename: "/t".to_string(), succeeds: true }).installed_packages_query() {
        PackagesQuery::ReadLines { path } => assert_eq!(path, "/t"),
        other => panic!("unexpected {:?}", other),
    }
}

#[test]
fn package_management_can_be_turned_off() {
    assert_eq!(PackageManager::package_management("off").unwrap(), None);
    assert_eq!(PackageManager::package_management("OFF").unwrap(), None);
    assert_eq!(PackageManager::package_management("Deb").unwrap(), Some(PackageManager::Deb));
    assert_eq!(
        PackageManager::package_management("otb:/repo").unwrap(),
        Some(PackageManager::OstreeBasic { repodir: "/repo".to_string() })
    );
    assert_eq!(
        PackageManager::package_management("none").unwrap_err().message(),
        "Parse error: unknown package manager: none"
    );
}
