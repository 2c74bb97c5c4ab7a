//! Packages as installed on the device and as identified by the server.

use vstd::prelude::*;

verus! {

/// A software package installed on (or to be installed on) the device.
#[derive(Debug, PartialEq, Eq, Clone)]
pub struct Package {
    pub name: String,
    pub version: String,
}

impl Package {
    /// `"<name> <version>"`.
    pub open spec fn describe_view(&self) -> Seq<char> {
        self.name@ + " "@ + self.version@
    }

    /// The package as `"<name> <version>"`.
    pub fn describe(&self) -> (s: String)
        ensures
            s@ == self.describe_view(),
    {
        String::from_str(self.name.as_str()).concat(" ").concat(self.version.as_str())
    }
}

/// A package identified by the server through its name and version.
#[derive(Debug, PartialEq, Eq, Hash, Clone)]
pub struct PackageId {
    pub name: String,
    pub version: String,
}

impl PackageId {
    /// `"<name>-<version>"`.
    pub open spec fn describe_view(&self) -> Seq<char> {
        self.name@ + "-"@ + self.version@
    }

    /// The package as `"<name>-<version>"`, the form used in file names.
    pub fn describe(&self) -> (s: String)
        ensures
            s@ == self.describe_view(),
    {
        String::from_str(self.name.as_str()).concat("-").concat(self.version.as_str())
    }
}

/// Outcome codes of an installation, as reported to the server.
#[allow(non_camel_case_types)]
#[derive(Debug, Clone, Copy, PartialEq, Eq, Structural)]
pub enum UpdateResultCode {
    /// The package was installed.
    OK,
    /// The package had already been installed.
    ALREADY_PROCESSED,
    /// The installation failed.
    INSTALL_FAILED,
    /// Some other failure, such as a failed download.
    GENERAL_ERROR,
}

} // verus!
