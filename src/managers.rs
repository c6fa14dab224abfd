use vstd::prelude::*;
use crate::{Invocation, PackageManager};

pub mod flatpak;
pub mod pacman;
pub mod paru;
pub mod winget;

use flatpak::Flatpak;
use pacman::Pacman;
use paru::Paru;
use winget::Winget;

verus! {

/// The arguments of a single install: fixed flags around the package id.
pub open spec fn with_package(before: Seq<Seq<char>>, package_id: Seq<char>, after: Seq<Seq<char>>) -> Seq<Seq<char>> {
    before.push(package_id) + after
}

/// One command per package, in the batch's order.
pub open spec fn one_by_one(
    program: Seq<char>,
    before: Seq<Seq<char>>,
    after: Seq<Seq<char>>,
    package_ids: Seq<Seq<char>>,
) -> Seq<(Seq<char>, Seq<Seq<char>>)> {
    package_ids.map_values(|p: Seq<char>| (program, with_package(before, p, after)))
}

/// Appends copies of `src` to `dst`.
pub(crate) fn append_strings(dst: &mut Vec<String>, src: &Vec<String>)
    ensures
        final(dst).deep_view() == old(dst).deep_view() + src.deep_view(),
{
    let ghost start = dst.deep_view();
    let mut i: usize = 0;
    while i < src.len()
        invariant
            i <= src@.len(),
            dst@.len() == start.len() + i,
            forall|k: int| 0 <= k < start.len() ==> #[trigger] dst@[k]@ == start[k],
            forall|k: int| 0 <= k < i ==> #[trigger] dst@[start.len() + k]@ == src@[k]@,
        decreases src@.len() - i,
    {
        dst.push(src[i].clone());
        i = i + 1;
    }
    assert(dst.deep_view() =~= start + src.deep_view()) by {
        assert forall|k: int| start.len() <= k < dst@.len() implies #[trigger] dst@[k]@ == src@[k - start.len()]@ by {
            assert(dst@[start.len() + (k - start.len())]@ == src@[k - start.len()]@);
        }
    }
}

/// Builds a vector of strings from literals.
pub(crate) fn strings(parts: &[&str]) -> (r: Vec<String>)
    ensures
        r.deep_view() == parts@.map_values(|p: &str| p@),
{
    let mut r: Vec<String> = Vec::new();
    let mut i: usize = 0;
    while i < parts.len()
        invariant
            i <= parts@.len(),
            r@.len() == i,
            forall|k: int| 0 <= k < i ==> #[trigger] r@[k]@ == parts@[k]@,
        decreases parts@.len() - i,
    {
        r.push(String::from_str(parts[i]));
        i = i + 1;
    }
    assert(r.deep_view() =~= parts@.map_values(|p: &str| p@));
    r
}

/// The command `program before... package_id after...`.
pub(crate) fn install_command(program: &str, before: &Vec<String>, package_id: &str, after: &Vec<String>) -> (r: Invocation)
    ensures
        r@ == (program@, with_package(before.deep_view(), package_id@, after.deep_view())),
{
    let mut args: Vec<String> = Vec::new();
    append_strings(&mut args, before);
    args.push(String::from_str(package_id));
    append_strings(&mut args, after);
    assert(args.deep_view() =~= with_package(before.deep_view(), package_id@, after.deep_view()));
    Invocation { program: String::from_str(program), args }
}

/// One install command per package, for a backend without a batch mode.
pub(crate) fn install_one_by_one(
    program: &str,
    before: &Vec<String>,
    after: &Vec<String>,
    package_ids: &Vec<String>,
) -> (r: Vec<Invocation>)
    ensures
        r@.map_values(|c: Invocation| c@) == one_by_one(
            program@,
            before.deep_view(),
            after.deep_view(),
            package_ids.deep_view(),
        ),
        r@.len() == package_ids@.len(),
{
    let mut plan: Vec<Invocation> = Vec::new();
    let mut i: usize = 0;
    while i < package_ids.len()
        invariant
            i <= package_ids@.len(),
            plan@.len() == i,
            forall|j: int|
                0 <= j < i ==> #[trigger] plan@[j]@ == (
                    program@,
                    with_package(before.deep_view(), package_ids@[j]@, after.deep_view()),
                ),
        decreases package_ids@.len() - i,
    {
        plan.push(install_command(program, before, package_ids[i].as_str(), after));
        i = i + 1;
    }
    assert(plan@.map_values(|c: Invocation| c@) =~= one_by_one(
        program@,
        before.deep_view(),
        after.deep_view(),
        package_ids.deep_view(),
    ));
    plan
}

/// The command `program --version`.
pub(crate) fn version_check(program: &str) -> (r: Invocation)
    ensures
        r@ == (program@, seq!["--version"@]),
{
    let args = vec![String::from_str("--version")];
    assert(args.deep_view() =~= seq!["--version"@]);
    Invocation { program: String::from_str(program), args }
}

/// The closed set of backends that detection can select.
#[derive(Clone, Copy, Debug, PartialEq, Eq, Structural)]
pub enum ManagerKind {
    Pacman,
    Paru,
    Winget,
    Flatpak,
}

impl ManagerKind {
    /// Whether the backend installs a whole batch with one command, so that a
    /// failure is reported for the batch rather than for a package.
    pub open spec fn spec_combines_batch(self) -> bool {
        self is Paru
    }

    pub fn combines_batch(&self) -> (r: bool)
        ensures
            r == self.spec_combines_batch(),
    {
        matches!(self, ManagerKind::Paru)
    }

    /// The executable that the backend drives.
    pub fn program(&self) -> (r: &'static str)
        ensures
            r@ == self.spec_program(),
    {
        match self {
            ManagerKind::Pacman => "pacman",
            ManagerKind::Paru => "paru",
            ManagerKind::Winget => "winget",
            ManagerKind::Flatpak => "flatpak",
        }
    }
}

impl PackageManager for ManagerKind {
    open spec fn spec_id(&self) -> Seq<char> {
        match self {
            ManagerKind::Pacman => Pacman.spec_id(),
            ManagerKind::Paru => Paru.spec_id(),
            ManagerKind::Winget => Winget.spec_id(),
            ManagerKind::Flatpak => Flatpak.spec_id(),
        }
    }

    open spec fn spec_name(&self) -> Seq<char> {
        match self {
            ManagerKind::Pacman => Pacman.spec_name(),
            ManagerKind::Paru => Paru.spec_name(),
            ManagerKind::Winget => Winget.spec_name(),
            ManagerKind::Flatpak => Flatpak.spec_name(),
        }
    }

    open spec fn spec_program(&self) -> Seq<char> {
        match self {
            ManagerKind::Pacman => Pacman.spec_program(),
            ManagerKind::Paru => Paru.spec_program(),
            ManagerKind::Winget => Winget.spec_program(),
            ManagerKind::Flatpak => Flatpak.spec_program(),
        }
    }

    open spec fn spec_install_args(&self, package_id: Seq<char>) -> Seq<Seq<char>> {
        match self {
            ManagerKind::Pacman => Pacman.spec_install_args(package_id),
            ManagerKind::Paru => Paru.spec_install_args(package_id),
            ManagerKind::Winget => Winget.spec_install_args(package_id),
            ManagerKind::Flatpak => Flatpak.spec_install_args(package_id),
        }
    }

    open spec fn spec_install_plan(&self, package_ids: Seq<Seq<char>>) -> Seq<
        (Seq<char>, Seq<Seq<char>>),
    > {
        match self {
            ManagerKind::Pacman => Pacman.spec_install_plan(package_ids),
            ManagerKind::Paru => Paru.spec_install_plan(package_ids),
            ManagerKind::Winget => Winget.spec_install_plan(package_ids),
            ManagerKind::Flatpak => Flatpak.spec_install_plan(package_ids),
        }
    }

    fn id(&self) -> (r: &'static str) {
        match self {
            ManagerKind::Pacman => Pacman.id(),
            ManagerKind::Paru => Paru.id(),
            ManagerKind::Winget => Winget.id(),
            ManagerKind::Flatpak => Flatpak.id(),
        }
    }

    fn name(&self) -> (r: &'static str) {
        match self {
            ManagerKind::Pacman => Pacman.name(),
            ManagerKind::Paru => Paru.name(),
            ManagerKind::Winget => Winget.name(),
            ManagerKind::Flatpak => Flatpak.name(),
        }
    }

    fn availability_check(&self) -> (r: Invocation) {
        match self {
            ManagerKind::Pacman => Pacman.availability_check(),
            ManagerKind::Paru => Paru.availability_check(),
            ManagerKind::Winget => Winget.availability_check(),
            ManagerKind::Flatpak => Flatpak.availability_check(),
        }
    }

    fn install(&self, package_id: &str) -> (r: Invocation) {
        match self {
            ManagerKind::Pacman => Pacman.install(package_id),
            ManagerKind::Paru => Paru.install(package_id),
            ManagerKind::Winget => Winget.install(package_id),
            ManagerKind::Flatpak => Flatpak.install(package_id),
        }
    }

    fn install_many(&self, package_ids: &Vec<String>) -> (r: Vec<Invocation>) {
        match self {
            ManagerKind::Pacman => Pacman.install_many(package_ids),
            ManagerKind::Paru => Paru.install_many(package_ids),
            ManagerKind::Winget => Winget.install_many(package_ids),
            ManagerKind::Flatpak => Flatpak.install_many(package_ids),
        }
    }
}

/// The display names of the backends, separated by ", ".
pub open spec fn joined_names(managers: Seq<ManagerKind>) -> Seq<char>
    decreases managers.len(),
{
    if managers.len() == 0 {
        seq![]
    } else if managers.len() == 1 {
        managers[0].spec_name()
    } else {
        joined_names(managers.drop_last()) + ", "@ + managers.last().spec_name()
    }
}

/// The line that names the detected backends, or says that there is none.
pub open spec fn spec_managers_label(managers: Seq<ManagerKind>) -> Seq<char> {
    if managers.len() == 0 {
        "None Detected"@
    } else {
        joined_names(managers)
    }
}

pub fn managers_label(managers: &Vec<ManagerKind>) -> (r: String)
    ensures
        r@ == spec_managers_label(managers@),
{
    if managers.len() == 0 {
        return String::from_str("None Detected");
    }
    let mut label = String::from_str(managers[0].name());
    let mut i: usize = 1;
    while i < managers.len()
        invariant
            1 <= i <= managers@.len(),
            label@ == joined_names(managers@.take(i as int)),
        decreases managers@.len() - i,
    {
        assert(managers@.take(i + 1).drop_last() =~= managers@.take(i as int));
        label = label.concat(", ").concat(managers[i].name());
        i = i + 1;
    }
    assert(managers@.take(i as int) =~= managers@);
    label
}

} // verus!
