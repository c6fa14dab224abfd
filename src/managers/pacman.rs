use vstd::prelude::*;
use crate::managers::{install_command, install_one_by_one, one_by_one, strings, version_check, with_package};
use crate::{Invocation, PackageManager};

verus! {

/// The base package manager of Arch-family distributions.
pub struct Pacman;

impl Pacman {
    /// Sync, without prompts, skipping what is already up to date.
    pub open spec fn flags() -> Seq<Seq<char>> {
        seq!["-S"@, "--noconfirm"@, "--needed"@]
    }

    fn flag_args() -> (r: Vec<String>)
        ensures
            r.deep_view() == Self::flags(),
    {
        let r = strings(&["-S", "--noconfirm", "--needed"]);
        assert(r.deep_view() =~= Self::flags());
        r
    }
}

impl PackageManager for Pacman {
    open spec fn spec_id(&self) -> Seq<char> {
        "pacman"@
    }

    open spec fn spec_name(&self) -> Seq<char> {
        "Pacman"@
    }

    open spec fn spec_program(&self) -> Seq<char> {
        "pacman"@
    }

    open spec fn spec_install_args(&self, package_id: Seq<char>) -> Seq<Seq<char>> {
        with_package(Self::flags(), package_id, seq![])
    }

    open spec fn spec_install_plan(&self, package_ids: Seq<Seq<char>>) -> Seq<
        (Seq<char>, Seq<Seq<char>>),
    > {
        one_by_one(self.spec_program(), Self::flags(), seq![], package_ids)
    }

    fn id(&self) -> (r: &'static str) {
        proof {
            reveal_strlit("pacman");
        }
        "pacman"
    }

    fn name(&self) -> (r: &'static str) {
        "Pacman"
    }

    fn availability_check(&self) -> (r: Invocation) {
        version_check("pacman")
    }

    fn install(&self, package_id: &str) -> (r: Invocation) {
        let none: Vec<String> = Vec::new();
        assert(none.deep_view() =~= seq![]);
        install_command("pacman", &Self::flag_args(), package_id, &none)
    }

    fn install_many(&self, package_ids: &Vec<String>) -> (r: Vec<Invocation>) {
        let none: Vec<String> = Vec::new();
        assert(none.deep_view() =~= seq![]);
        install_one_by_one("pacman", &Self::flag_args(), &none, package_ids)
    }
}

} // verus!
