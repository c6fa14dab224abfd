use vstd::prelude::*;
use crate::managers::{install_command, install_one_by_one, one_by_one, strings, version_check, with_package};
use crate::{Invocation, PackageManager};

verus! {

/// The sandboxed-application manager, usable on any distribution.
pub struct Flatpak;

impl Flatpak {
    /// Install, assuming yes, with no prompt at all.
    pub open spec fn flags() -> Seq<Seq<char>> {
        seq!["install"@, "-y"@, "--noninteractive"@]
    }

    fn flag_args() -> (r: Vec<String>)
        ensures
            r.deep_view() == Self::flags(),
    {
        let r = strings(&["install", "-y", "--noninteractive"]);
        assert(r.deep_view() =~= Self::flags());
        r
    }
}

impl PackageManager for Flatpak {
    open spec fn spec_id(&self) -> Seq<char> {
        "flatpak"@
    }

    open spec fn spec_name(&self) -> Seq<char> {
        "Flatpak"@
    }

    open spec fn spec_program(&self) -> Seq<char> {
        "flatpak"@
    }

    open spec fn spec_install_args(&self, package_id: Seq<char>) -> Seq<Seq<char>> {
        with_package(Self::flags(), package_id, seq![])
    }

    open spec fn spec_install_plan(&self, package_ids: Seq<Seq<char>>) -> Seq<
        (Seq<char>, Seq<Seq<char>>),
    > {
        one_by_one(self.spec_program(), Self::flags(), seq![], package_ids)
    }

    fn id(&self) -> (r: &'static str) {
        proof {
            reveal_strlit("flatpak");
        }
        "flatpak"
    }

    fn name(&self) -> (r: &'static str) {
        "Flatpak"
    }

    fn availability_check(&self) -> (r: Invocation) {
        version_check("flatpak")
    }

    fn install(&self, package_id: &str) -> (r: Invocation) {
        let none: Vec<String> = Vec::new();
        assert(none.deep_view() =~= seq![]);
        install_command("flatpak", &Self::flag_args(), package_id, &none)
    }

    fn install_many(&self, package_ids: &Vec<String>) -> (r: Vec<Invocation>) {
        let none: Vec<String> = Vec::new();
        assert(none.deep_view() =~= seq![]);
        install_one_by_one("flatpak", &Self::flag_args(), &none, package_ids)
    }
}

} // verus!
