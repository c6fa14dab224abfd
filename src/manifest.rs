use vstd::prelude::*;

verus! {

/// The value of the first pair at position `from` or later whose key is `key`.
pub open spec fn lookup_from(pairs: Seq<(String, String)>, key: Seq<char>, from: nat) -> Option<
    Seq<char>,
>
    decreases pairs.len() - from,
{
    if from >= pairs.len() {
        None
    } else if pairs[from as int].0@ == key {
        Some(pairs[from as int].1@)
    } else {
        lookup_from(pairs, key, from + 1)
    }
}

/// The map that a list of pairs stands for: each key to the value of its
/// first pair.
pub open spec fn pairs_map(pairs: Seq<(String, String)>) -> Map<Seq<char>, Seq<char>> {
    Map::new(
        |k: Seq<char>| lookup_from(pairs, k, 0) is Some,
        |k: Seq<char>| lookup_from(pairs, k, 0)->0,
    )
}

/// Replacing the value of the first pair with a given key changes the lookup
/// of that key alone.
proof fn lemma_lookup_replace(
    pairs: Seq<(String, String)>,
    i: int,
    entry: (String, String),
    key: Seq<char>,
    from: nat,
)
    requires
        0 <= i < pairs.len(),
        pairs[i].0@ == entry.0@,
        forall|j: int| from <= j < i ==> pairs[j].0@ != entry.0@,
    ensures
        lookup_from(pairs.update(i, entry), key, from) == if key == entry.0@ && from <= i {
            Some(entry.1@)
        } else {
            lookup_from(pairs, key, from)
        },
    decreases pairs.len() - from,
{
    if from < pairs.len() {
        lemma_lookup_replace(pairs, i, entry, key, from + 1);
    }
}

/// Appending a pair only adds its key, where it was missing.
proof fn lemma_lookup_push(pairs: Seq<(String, String)>, entry: (String, String), key: Seq<char>, from: nat)
    ensures
        lookup_from(pairs.push(entry), key, from) == match lookup_from(pairs, key, from) {
            Some(v) => Some(v),
            None => if key == entry.0@ && from <= pairs.len() {
                Some(entry.1@)
            } else {
                None
            },
        },
    decreases pairs.len() + 1 - from,
{
    let pushed = pairs.push(entry);
    if from < pairs.len() {
        assert(pushed[from as int] == pairs[from as int]);
        lemma_lookup_push(pairs, entry, key, from + 1);
    } else if from == pairs.len() {
        assert(pushed[from as int] == entry);
        assert(lookup_from(pushed, key, from + 1) is None);
    }
}

/// A mapping from manager identifier to that manager's package id.
#[derive(Clone, Debug)]
pub struct PackageMap {
    pairs: Vec<(String, String)>,
}

impl View for PackageMap {
    type V = Map<Seq<char>, Seq<char>>;

    closed spec fn view(&self) -> Map<Seq<char>, Seq<char>> {
        pairs_map(self.pairs@)
    }
}

impl PackageMap {
    pub fn new() -> (r: PackageMap)
        ensures
            r@ == Map::<Seq<char>, Seq<char>>::empty(),
    {
        let r = PackageMap { pairs: Vec::new() };
        assert(r@ =~= Map::<Seq<char>, Seq<char>>::empty());
        r
    }

    /// Position of the pair with this key, if any.
    fn position(&self, key: &String) -> (r: Option<usize>)
        ensures
            match r {
                Some(i) => i < self.pairs@.len() && self.pairs@[i as int].0@ == key@ && forall|j: int|
                    0 <= j < i ==> self.pairs@[j].0@ != key@,
                None => forall|j: int| 0 <= j < self.pairs@.len() ==> self.pairs@[j].0@ != key@,
            },
            lookup_from(self.pairs@, key@, 0) == match r {
                Some(i) => Some(self.pairs@[i as int].1@),
                None => None::<Seq<char>>,
            },
    {
        let mut i: usize = 0;
        while i < self.pairs.len()
            invariant
                i <= self.pairs@.len(),
                forall|j: int| 0 <= j < i ==> self.pairs@[j].0@ != key@,
                lookup_from(self.pairs@, key@, 0) == lookup_from(self.pairs@, key@, i as nat),
            decreases self.pairs@.len() - i,
        {
            if self.pairs[i].0 == *key {
                return Some(i);
            }
            i = i + 1;
        }
        None
    }

    /// Sets the package id listed under `key`.
    pub fn insert(&mut self, key: String, value: String)
        ensures
            final(self)@ == old(self)@.insert(key@, value@),
    {
        let ghost before = self.pairs@;
        let ghost entry = (key, value);
        match self.position(&key) {
            Some(i) => {
                self.pairs.set(i, (key, value));
                proof {
                    assert forall|k: Seq<char>|
                        #![trigger lookup_from(self.pairs@, k, 0)]
                        lookup_from(self.pairs@, k, 0) == if k == entry.0@ {
                            Some(entry.1@)
                        } else {
                            lookup_from(before, k, 0)
                        } by {
                        lemma_lookup_replace(before, i as int, entry, k, 0);
                    }
                }
            },
            None => {
                self.pairs.push((key, value));
                proof {
                    assert forall|k: Seq<char>|
                        #![trigger lookup_from(self.pairs@, k, 0)]
                        lookup_from(self.pairs@, k, 0) == if k == entry.0@ {
                            Some(entry.1@)
                        } else {
                            lookup_from(before, k, 0)
                        } by {
                        lemma_lookup_push(before, entry, k, 0);
                    }
                }
            },
        }
        assert(self@ =~= old(self)@.insert(key@, value@));
    }

    /// The package id listed under `key`.
    pub fn get(&self, key: &str) -> (r: Option<&String>)
        ensures
            r is Some <==> self@.contains_key(key@),
            r is Some ==> r->0@ == self@[key@],
    {
        let k = String::from_str(key);
        match self.position(&k) {
            Some(i) => Some(&self.pairs[i].1),
            None => None,
        }
    }

    pub fn contains_key(&self, key: &str) -> (r: bool)
        ensures
            r == self@.contains_key(key@),
    {
        self.get(key).is_some()
    }

    /// The pairs held, each key once.
    pub fn pairs(&self) -> (r: &Vec<(String, String)>)
        ensures
            pairs_map(r@) == self@,
    {
        &self.pairs
    }
}

/// An installable application, as the manifest lists it.
#[derive(Clone, Debug)]
pub struct App {
    /// Unique, stable identifier.
    pub id: String,
    pub name: String,
    pub description: Option<String>,
    pub icon: Option<String>,
    /// The group that the application is shown in; see [`category_of`].
    pub category: Option<String>,
    /// Manager identifier to that manager's package id.
    pub packages: PackageMap,
}

/// The applications that a manifest offers.
#[derive(Clone, Debug)]
pub struct Manifest {
    pub apps: Vec<App>,
}

/// Whether `v` holds a string equal to `s`.
pub fn contains_string(v: &Vec<String>, s: &String) -> (r: bool)
    ensures
        r == v.deep_view().contains(s@),
{
    let mut i: usize = 0;
    while i < v.len()
        invariant
            i <= v@.len(),
            forall|j: int| 0 <= j < i ==> v@[j]@ != s@,
        decreases v@.len() - i,
    {
        if v[i] == *s {
            assert(v.deep_view()[i as int] == s@);
            return true;
        }
        i = i + 1;
    }
    proof {
        if v.deep_view().contains(s@) {
            let j = choose|j: int| 0 <= j < v.deep_view().len() && v.deep_view()[j] == s@;
            assert(v@[j]@ == s@);
        }
    }
    false
}

/// The group an application is shown in; those without one go to "General".
pub open spec fn category_of(app: App) -> Seq<char> {
    match app.category {
        Some(c) => c@,
        None => "General"@,
    }
}

/// The distinct categories of the first `n` applications, in order of first
/// appearance.
pub open spec fn categories_upto(apps: Seq<App>, n: nat) -> Seq<Seq<char>>
    decreases n,
{
    if n == 0 {
        seq![]
    } else {
        let seen = categories_upto(apps, (n - 1) as nat);
        let c = category_of(apps[n - 1]);
        if seen.contains(c) {
            seen
        } else {
            seen.push(c)
        }
    }
}

/// The positions, among the first `n` applications, of those in category `c`.
pub open spec fn members_upto(apps: Seq<App>, c: Seq<char>, n: nat) -> Seq<nat>
    decreases n,
{
    if n == 0 {
        seq![]
    } else {
        let m = members_upto(apps, c, (n - 1) as nat);
        if category_of(apps[n - 1]) == c {
            m.push((n - 1) as nat)
        } else {
            m
        }
    }
}

impl App {
    /// The application's category, or "General" where it has none.
    pub fn category_name(&self) -> (r: String)
        ensures
            r@ == category_of(*self),
    {
        match &self.category {
            Some(c) => c.clone(),
            None => String::from_str("General"),
        }
    }
}

/// Groups applications by category: one group per distinct category, in order
/// of first appearance, each with the positions of its applications in
/// increasing order.
pub fn group_by_category(apps: &Vec<App>) -> (r: Vec<(String, Vec<usize>)>)
    ensures
        r@.len() == categories_upto(apps@, apps@.len()).len(),
        forall|g: int|
            0 <= g < r@.len() ==> {
                &&& (#[trigger] r@[g]).0@ == categories_upto(apps@, apps@.len())[g]
                &&& r@[g].1@.map_values(|i: usize| i as nat) == members_upto(
                    apps@,
                    r@[g].0@,
                    apps@.len(),
                )
            },
{
    let mut names: Vec<String> = Vec::new();
    let mut i: usize = 0;
    while i < apps.len()
        invariant
            i <= apps@.len(),
            names.deep_view() =~= categories_upto(apps@, i as nat),
        decreases apps@.len() - i,
    {
        let c = apps[i].category_name();
        if !contains_string(&names, &c) {
            names.push(c);
        }
        i = i + 1;
    }
    let mut groups: Vec<(String, Vec<usize>)> = Vec::new();
    let mut g: usize = 0;
    while g < names.len()
        invariant
            g <= names@.len(),
            names.deep_view() =~= categories_upto(apps@, apps@.len()),
            groups@.len() == g,
            forall|h: int|
                0 <= h < g ==> {
                    &&& (#[trigger] groups@[h]).0@ == names.deep_view()[h]
                    &&& groups@[h].1@.map_values(|i: usize| i as nat) == members_upto(
                        apps@,
                        groups@[h].0@,
                        apps@.len(),
                    )
                },
        decreases names@.len() - g,
    {
        let name = names[g].clone();
        let mut members: Vec<usize> = Vec::new();
        let mut i: usize = 0;
        while i < apps.len()
            invariant
                i <= apps@.len(),
                members@.map_values(|i: usize| i as nat) =~= members_upto(apps@, name@, i as nat),
            decreases apps@.len() - i,
        {
            let c = apps[i].category_name();
            if c == name {
                members.push(i);
            }
            i = i + 1;
        }
        groups.push((name, members));
        g = g + 1;
    }
    groups
}

} // verus!
