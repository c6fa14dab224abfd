use vstd::prelude::*;
use crate::managers::{install_command, install_one_by_one, one_by_one, strings, version_check, with_package};
use crate::{Invocation, PackageManager};

verus! {

/// The package manager that ships with Windows.
pub struct Winget;

impl Winget {
    /// The flags before the package id: install by exact id.
    pub open spec fn flags_before() -> Seq<Seq<char>> {
        seq!["install"@, "--exact"@, "--id"@]
    }

    /// The flags after it: silently, with the agreements accepted up front.
    pub open spec fn flags_after() -> Seq<Seq<char>> {
        seq!["--silent"@, "--accept-package-agreements"@, "--accept-source-agreements"@]
    }

    fn flag_args() -> (r: (Vec<String>, Vec<String>))
        ensures
            r.0.deep_view() == Self::flags_before(),
            r.1.deep_view() == Self::flags_after(),
    {
        let before = strings(&["install", "--exact", "--id"]);
        let after = strings(
            &["--silent", "--accept-package-agreements", "--accept-source-agreements"],
        );
        assert(before.deep_view() =~= Self::flags_before());
        assert(after.deep_view() =~= Self::flags_after());
        (before, after)
    }
}

impl PackageManager for Winget {
    open spec fn spec_id(&self) -> Seq<char> {
        "winget"@
    }

    open spec fn spec_name(&self) -> Seq<char> {
        "Winget"@
    }

    open spec fn spec_program(&self) -> Seq<char> {
        "winget"@
    }

    open spec fn spec_install_args(&self, package_id: Seq<char>) -> Seq<Seq<char>> {
        with_package(Self::flags_before(), package_id, Self::flags_after())
    }

    open spec fn spec_install_plan(&self, package_ids: Seq<Seq<char>>) -> Seq<
        (Seq<char>, Seq<Seq<char>>),
    > {
        one_by_one(self.spec_program(), Self::flags_before(), Self::flags_after(), package_ids)
    }

    fn id(&self) -> (r: &'static str) {
        proof {
            reveal_strlit("winget");
        }
        "winget"
    }

    fn name(&self) -> (r: &'static str) {
        "Winget"
    }

    fn availability_check(&self) -> (r: Invocation) {
        version_check("winget")
    }

    fn install(&self, package_id: &str) -> (r: Invocation) {
        let (before, after) = Self::flag_args();
        install_command("winget", &before, package_id, &after)
    }

    fn install_many(&self, package_ids: &Vec<String>) -> (r: Vec<Invocation>) {
        let (before, after) = Self::flag_args();
        install_one_by_one("winget", &before, &after, package_ids)
    }
}

} // verus!
