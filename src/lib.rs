//! Package-manager backends, manager detection and the batch install
//! orchestrator of a desktop bootstrapper.
//!
//! Nothing here spawns a process: a backend says which command lines an
//! install takes, and the install state machines decide what runs next from
//! the outcomes that the caller reports back.
use vstd::prelude::*;

pub mod batch_run;
pub mod detectors;
pub mod installer;
pub mod managers;
pub mod manifest;
pub mod queue;

verus! {

/// One external command line: the executable's name and its arguments.
#[derive(Clone, Debug)]
pub struct Invocation {
    pub program: String,
    pub args: Vec<String>,
}

impl View for Invocation {
    type V = (Seq<char>, Seq<Seq<char>>);

    open spec fn view(&self) -> (Seq<char>, Seq<Seq<char>>) {
        (self.program@, self.args.deep_view())
    }
}

/// The operations that every package-manager backend offers.
///
/// A backend holds no state. It names itself and maps each install request
/// onto the command lines of its tool; running them is the caller's work.
pub trait PackageManager {
    /// The key under which applications list this backend's package ids.
    spec fn spec_id(&self) -> Seq<char>;

    /// The human-readable label.
    spec fn spec_name(&self) -> Seq<char>;

    /// The executable that the backend drives.
    spec fn spec_program(&self) -> Seq<char>;

    /// The arguments that install one package.
    spec fn spec_install_args(&self, package_id: Seq<char>) -> Seq<Seq<char>>;

    /// The command lines, in order, that install a batch of packages.
    spec fn spec_install_plan(&self, package_ids: Seq<Seq<char>>) -> Seq<(Seq<char>, Seq<Seq<char>>)>;

    fn id(&self) -> (r: &'static str)
        ensures
            r@ == self.spec_id(),
            r@.len() > 0,
    ;

    fn name(&self) -> (r: &'static str)
        ensures
            r@ == self.spec_name(),
    ;

    /// The command whose success shows that the tool exists and runs.
    fn availability_check(&self) -> (r: Invocation)
        ensures
            r@ == (self.spec_program(), seq!["--version"@]),
    ;

    /// The command that installs one package, skipping it if already there.
    fn install(&self, package_id: &str) -> (r: Invocation)
        ensures
            r@ == (self.spec_program(), self.spec_install_args(package_id@)),
    ;

    /// The commands that install a batch; an empty batch needs none.
    fn install_many(&self, package_ids: &Vec<String>) -> (r: Vec<Invocation>)
        ensures
            r@.map_values(|c: Invocation| c@) == self.spec_install_plan(package_ids.deep_view()),
            package_ids@.len() == 0 ==> r@.len() == 0,
    ;
}

} // verus!
