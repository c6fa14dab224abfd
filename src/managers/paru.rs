use vstd::prelude::*;
use crate::managers::{append_strings, install_command, strings, version_check, with_package};
use crate::{Invocation, PackageManager};

verus! {

/// The AUR helper; it takes a whole batch in one command.
pub struct Paru;

impl Paru {
    /// Sync, without prompts, skipping what is already up to date.
    pub open spec fn flags() -> Seq<Seq<char>> {
        seq!["-S"@, "--noconfirm"@, "--needed"@]
    }

    fn flag_args() -> (r: Vec<String>)
        ensures
            r.deep_view() == Self::flags(),
    {
        let r = strings(&["-S", "--noconfirm", "--needed"]);
        assert(r.deep_view() =~= Self::flags());
        r
    }
}

impl PackageManager for Paru {
    open spec fn spec_id(&self) -> Seq<char> {
        "paru"@
    }

    open spec fn spec_name(&self) -> Seq<char> {
        "Paru (AUR Helper)"@
    }

    open spec fn spec_program(&self) -> Seq<char> {
        "paru"@
    }

    open spec fn spec_install_args(&self, package_id: Seq<char>) -> Seq<Seq<char>> {
        with_package(Self::flags(), package_id, seq![])
    }

    /// One command with every package appended; none for an empty batch.
    open spec fn spec_install_plan(&self, package_ids: Seq<Seq<char>>) -> Seq<
        (Seq<char>, Seq<Seq<char>>),
    > {
        if package_ids.len() == 0 {
            seq![]
        } else {
            seq![(self.spec_program(), Self::flags() + package_ids)]
        }
    }

    fn id(&self) -> (r: &'static str) {
        proof {
            reveal_strlit("paru");
        }
        "paru"
    }

    fn name(&self) -> (r: &'static str) {
        "Paru (AUR Helper)"
    }

    fn availability_check(&self) -> (r: Invocation) {
        version_check("paru")
    }

    fn install(&self, package_id: &str) -> (r: Invocation) {
        let none: Vec<String> = Vec::new();
        assert(none.deep_view() =~= seq![]);
        install_command("paru", &Self::flag_args(), package_id, &none)
    }

    fn install_many(&self, package_ids: &Vec<String>) -> (r: Vec<Invocation>) {
        let mut plan: Vec<Invocation> = Vec::new();
        if package_ids.len() > 0 {
            let mut args = Self::flag_args();
            append_strings(&mut args, package_ids);
            plan.push(Invocation { program: String::from_str("paru"), args });
        }
        assert(plan@.map_values(|c: Invocation| c@) =~= self.spec_install_plan(
            package_ids.deep_view(),
        ));
        plan
    }
}

} // verus!
