use vstd::prelude::*;
use crate::managers::ManagerKind;
use crate::manifest::App;
use crate::PackageManager;

verus! {

/// Whether the application lists a package for the backend.
pub open spec fn serves(app: App, m: ManagerKind) -> bool {
    app.packages@.contains_key(m.spec_id())
}

/// The first backend, at position `from` or later, that the application lists.
pub open spec fn first_backend_from(app: App, managers: Seq<ManagerKind>, from: nat) -> Option<nat>
    decreases managers.len() - from,
{
    if from >= managers.len() {
        None
    } else if serves(app, managers[from as int]) {
        Some(from)
    } else {
        first_backend_from(app, managers, from + 1)
    }
}

/// The first backend, in detection order, that the application lists.
pub open spec fn first_backend(app: App, managers: Seq<ManagerKind>) -> Option<nat> {
    first_backend_from(app, managers, 0)
}

/// The first application, at position `from` or later, with the identifier.
pub open spec fn find_app_from(apps: Seq<App>, id: Seq<char>, from: nat) -> Option<App>
    decreases apps.len() - from,
{
    if from >= apps.len() {
        None
    } else if apps[from as int].id@ == id {
        Some(apps[from as int])
    } else {
        find_app_from(apps, id, from + 1)
    }
}

/// The first application with the identifier.
pub open spec fn find_app(apps: Seq<App>, id: Seq<char>) -> Option<App> {
    find_app_from(apps, id, 0)
}

/// Where a selected identifier is sent: the position of its backend and the
/// package id that the application lists for it.
pub open spec fn route(apps: Seq<App>, managers: Seq<ManagerKind>, id: Seq<char>) -> Option<
    (nat, Seq<char>),
> {
    match find_app(apps, id) {
        None => None,
        Some(app) => match first_backend(app, managers) {
            None => None,
            Some(k) => Some((k, app.packages@[managers[k as int].spec_id()])),
        },
    }
}

/// The package ids, in selection order, that go to the backend at position `k`.
pub open spec fn batch_packages(
    apps: Seq<App>,
    managers: Seq<ManagerKind>,
    selected: Seq<Seq<char>>,
    k: nat,
) -> Seq<Seq<char>>
    decreases selected.len(),
{
    if selected.len() == 0 {
        seq![]
    } else {
        let rest = batch_packages(apps, managers, selected.drop_last(), k);
        match route(apps, managers, selected.last()) {
            Some((j, p)) if j == k => rest.push(p),
            _ => rest,
        }
    }
}

/// The batches of the first `n` backends, in detection order, leaving out
/// those that received nothing.
pub open spec fn queue_upto(
    apps: Seq<App>,
    managers: Seq<ManagerKind>,
    selected: Seq<Seq<char>>,
    n: nat,
) -> Seq<(ManagerKind, Seq<Seq<char>>)>
    decreases n,
{
    if n == 0 {
        seq![]
    } else {
        let q = queue_upto(apps, managers, selected, (n - 1) as nat);
        let b = batch_packages(apps, managers, selected, (n - 1) as nat);
        if b.len() > 0 {
            q.push((managers[n - 1], b))
        } else {
            q
        }
    }
}

/// The install queue for a selection: one batch per backend that received at
/// least one application, in detection order.
pub open spec fn install_queue(apps: Seq<App>, managers: Seq<ManagerKind>, selected: Seq<Seq<char>>) -> Seq<
    (ManagerKind, Seq<Seq<char>>),
> {
    queue_upto(apps, managers, selected, managers.len())
}

/// `first_backend_from` is the least serving position at `from` or later.
pub proof fn lemma_first_backend_from(app: App, managers: Seq<ManagerKind>, from: nat)
    ensures
        match first_backend_from(app, managers, from) {
            Some(k) => from <= k < managers.len() && serves(app, managers[k as int]) && forall|j: int|
                from <= j < k ==> !serves(app, #[trigger] managers[j]),
            None => forall|j: int| from <= j < managers.len() ==> !serves(app, #[trigger] managers[j]),
        },
    decreases managers.len() - from,
{
    if from < managers.len() {
        lemma_first_backend_from(app, managers, from + 1);
    }
}

/// Adding an identifier that is routed nowhere leaves the queue as it was.
proof fn lemma_queue_ignores_unrouted(
    apps: Seq<App>,
    managers: Seq<ManagerKind>,
    selected: Seq<Seq<char>>,
    id: Seq<char>,
    n: nat,
)
    requires
        route(apps, managers, id) is None,
    ensures
        queue_upto(apps, managers, selected.push(id), n) == queue_upto(apps, managers, selected, n),
    decreases n,
{
    assert(selected.push(id).drop_last() =~= selected);
    if n > 0 {
        lemma_queue_ignores_unrouted(apps, managers, selected, id, (n - 1) as nat);
    }
}

/// The queue of an empty selection is empty.
proof fn lemma_queue_of_nothing(apps: Seq<App>, managers: Seq<ManagerKind>, n: nat)
    ensures
        queue_upto(apps, managers, seq![], n) == Seq::<(ManagerKind, Seq<Seq<char>>)>::empty(),
    decreases n,
{
    if n > 0 {
        lemma_queue_of_nothing(apps, managers, (n - 1) as nat);
    }
}

/// The queue of a single identifier routed to backend `k` with package `p`,
/// over the first `n` backends.
proof fn lemma_queue_of_one(
    apps: Seq<App>,
    managers: Seq<ManagerKind>,
    id: Seq<char>,
    k: nat,
    p: Seq<char>,
    n: nat,
)
    requires
        route(apps, managers, id) == Some((k, p)),
        n <= managers.len(),
    ensures
        queue_upto(apps, managers, seq![id], n) == if n <= k {
            Seq::<(ManagerKind, Seq<Seq<char>>)>::empty()
        } else {
            seq![(managers[k as int], seq![p])]
        },
    decreases n,
{
    let one = seq![id];
    assert(one.drop_last() =~= Seq::<Seq<char>>::empty());
    assert(one.last() == id);
    if n > 0 {
        lemma_queue_of_one(apps, managers, id, k, p, (n - 1) as nat);
        assert(batch_packages(apps, managers, Seq::<Seq<char>>::empty(), (n - 1) as nat) == Seq::<
            Seq<char>,
        >::empty());
        if n - 1 == k {
            assert(batch_packages(apps, managers, one, (n - 1) as nat) =~= seq![p]);
        } else {
            assert(batch_packages(apps, managers, one, (n - 1) as nat) =~= Seq::<Seq<char>>::empty());
        }
    }
}

/// An application that lists a package for at least one detected backend,
/// submitted on its own, gives exactly one batch: the first backend in
/// detection order that it lists, with the one package id listed for it.
pub proof fn lemma_servable_app_single_batch(apps: Seq<App>, managers: Seq<ManagerKind>, id: Seq<char>)
    requires
        find_app(apps, id) is Some,
        exists|j: int| 0 <= j < managers.len() && serves(find_app(apps, id)->0, #[trigger] managers[j]),
    ensures
        exists|k: int|
            #![trigger managers[k]]
            {
                let app = find_app(apps, id)->0;
                &&& 0 <= k < managers.len()
                &&& serves(app, managers[k])
                &&& forall|j: int| 0 <= j < k ==> !serves(app, #[trigger] managers[j])
                &&& install_queue(apps, managers, seq![id]) == seq![
                    (managers[k], seq![app.packages@[managers[k].spec_id()]]),
                ]
            },
{
    let app = find_app(apps, id)->0;
    lemma_first_backend_from(app, managers, 0);
    let k = first_backend(app, managers)->0;
    let p = app.packages@[managers[k as int].spec_id()];
    lemma_queue_of_one(apps, managers, id, k, p, managers.len());
    assert(managers[k as int] == managers[k as int]);
}

/// An application that lists no package for any detected backend, or an
/// identifier that no application has, adds nothing when submitted: the queue,
/// and so the number of tasks, is the one of the selection without it, and
/// submitted alone it gives no batch at all.
pub proof fn lemma_unservable_app_ignored(
    apps: Seq<App>,
    managers: Seq<ManagerKind>,
    selected: Seq<Seq<char>>,
    id: Seq<char>,
)
    requires
        find_app(apps, id) is Some ==> forall|j: int|
            0 <= j < managers.len() ==> !serves(find_app(apps, id)->0, #[trigger] managers[j]),
    ensures
        install_queue(apps, managers, selected.push(id)) == install_queue(apps, managers, selected),
        install_queue(apps, managers, seq![id]).len() == 0,
{
    if find_app(apps, id) is Some {
        lemma_first_backend_from(find_app(apps, id)->0, managers, 0);
    }
    assert(route(apps, managers, id) is None);
    lemma_queue_ignores_unrouted(apps, managers, selected, id, managers.len());
    lemma_queue_ignores_unrouted(apps, managers, seq![], id, managers.len());
    lemma_queue_of_nothing(apps, managers, managers.len());
    assert(Seq::<Seq<char>>::empty().push(id) =~= seq![id]);
}

/// The package ids that one backend installs together.
#[derive(Clone, Debug)]
pub struct Batch {
    pub manager: ManagerKind,
    pub packages: Vec<String>,
}

impl View for Batch {
    type V = (ManagerKind, Seq<Seq<char>>);

    open spec fn view(&self) -> (ManagerKind, Seq<Seq<char>>) {
        (self.manager, self.packages.deep_view())
    }
}

impl Batch {
    /// A copy of the batch.
    pub fn duplicate(&self) -> (r: Batch)
        ensures
            r@ == self@,
    {
        let mut packages: Vec<String> = Vec::new();
        crate::managers::append_strings(&mut packages, &self.packages);
        assert(packages.deep_view() =~= self.packages.deep_view());
        Batch { manager: self.manager, packages }
    }
}

/// Position of the first application with the identifier.
fn locate_app(apps: &Vec<App>, id: &String) -> (r: Option<usize>)
    ensures
        match r {
            Some(i) => i < apps@.len() && find_app(apps@, id@) == Some(apps@[i as int]),
            None => find_app(apps@, id@) is None,
        },
{
    let mut i: usize = 0;
    while i < apps.len()
        invariant
            i <= apps@.len(),
            find_app(apps@, id@) == find_app_from(apps@, id@, i as nat),
        decreases apps@.len() - i,
    {
        if apps[i].id == *id {
            return Some(i);
        }
        i = i + 1;
    }
    None
}

/// The backend position and package id that a selected identifier goes to.
fn route_of(apps: &Vec<App>, managers: &Vec<ManagerKind>, id: &String) -> (r: Option<(usize, String)>)
    ensures
        route(apps@, managers@, id@) == match r {
            Some((k, p)) => Some((k as nat, p@)),
            None => None::<(nat, Seq<char>)>,
        },
{
    match locate_app(apps, id) {
        None => None,
        Some(a) => {
            let app = &apps[a];
            let mut k: usize = 0;
            while k < managers.len()
                invariant
                    k <= managers@.len(),
                    find_app(apps@, id@) == Some(*app),
                    first_backend(*app, managers@) == first_backend_from(*app, managers@, k as nat),
                decreases managers@.len() - k,
            {
                match app.packages.get(managers[k].id()) {
                    Some(p) => {
                        let r = Some((k, p.clone()));
                        return r;
                    },
                    None => {},
                }
                k = k + 1;
            }
            None
        },
    }
}

/// Whether any of the detected backends can install the application.
pub fn is_installable(app: &App, managers: &Vec<ManagerKind>) -> (r: bool)
    ensures
        r == exists|j: int| 0 <= j < managers@.len() && serves(*app, #[trigger] managers@[j]),
{
    let mut k: usize = 0;
    while k < managers.len()
        invariant
            k <= managers@.len(),
            forall|j: int| 0 <= j < k ==> !serves(*app, #[trigger] managers@[j]),
        decreases managers@.len() - k,
    {
        if app.packages.contains_key(managers[k].id()) {
            assert(serves(*app, managers@[k as int]));
            return true;
        }
        k = k + 1;
    }
    false
}

/// Groups the selected applications by the first backend, in detection order,
/// that lists a package for them. Selected identifiers with no application,
/// or whose application no backend serves, are left out.
pub fn build_queue(apps: &Vec<App>, managers: &Vec<ManagerKind>, selected: &Vec<String>) -> (r: Vec<
    Batch,
>)
    ensures
        r@.map_values(|b: Batch| b@) == install_queue(apps@, managers@, selected.deep_view()),
{
    let ghost sel = selected.deep_view();
    let mut routes: Vec<Option<(usize, String)>> = Vec::new();
    let mut i: usize = 0;
    while i < selected.len()
        invariant
            i <= selected@.len(),
            sel == selected.deep_view(),
            routes@.len() == i,
            forall|j: int|
                0 <= j < i ==> route(apps@, managers@, sel[j]) == match #[trigger] routes@[j] {
                    Some((k, p)) => Some((k as nat, p@)),
                    None => None::<(nat, Seq<char>)>,
                },
        decreases selected@.len() - i,
    {
        routes.push(route_of(apps, managers, &selected[i]));
        i = i + 1;
    }
    let mut queue: Vec<Batch> = Vec::new();
    let mut k: usize = 0;
    while k < managers.len()
        invariant
            k <= managers@.len(),
            sel == selected.deep_view(),
            routes@.len() == sel.len(),
            forall|j: int|
                0 <= j < sel.len() ==> route(apps@, managers@, sel[j]) == match #[trigger] routes@[j] {
                    Some((k, p)) => Some((k as nat, p@)),
                    None => None::<(nat, Seq<char>)>,
                },
            queue@.map_values(|b: Batch| b@) =~= queue_upto(apps@, managers@, sel, k as nat),
        decreases managers@.len() - k,
    {
        let mut packages: Vec<String> = Vec::new();
        let mut j: usize = 0;
        while j < routes.len()
            invariant
                j <= routes@.len(),
                k < managers@.len(),
                routes@.len() == sel.len(),
                forall|j: int|
                    0 <= j < sel.len() ==> route(apps@, managers@, sel[j]) == match #[trigger] routes@[j] {
                        Some((k, p)) => Some((k as nat, p@)),
                        None => None::<(nat, Seq<char>)>,
                    },
                packages.deep_view() =~= batch_packages(apps@, managers@, sel.take(j as int), k as nat),
            decreases routes@.len() - j,
        {
            assert(sel.take(j + 1).drop_last() =~= sel.take(j as int));
            match &routes[j] {
                Some((m, p)) => {
                    if *m == k {
                        packages.push(p.clone());
                    }
                },
                None => {},
            }
            j = j + 1;
        }
        assert(sel.take(j as int) =~= sel);
        if packages.len() > 0 {
            queue.push(Batch { manager: managers[k], packages });
        }
        k = k + 1;
    }
    queue
}

} // verus!
