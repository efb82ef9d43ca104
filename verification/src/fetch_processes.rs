use vstd::hash_set::StringHashSet;
use vstd::prelude::*;

verus! {

/// The names of the processes that were running when the host was last
/// sampled. A name is held once, however many processes carry it.
pub struct ProcessSnapshot {
    set: StringHashSet,
    names: Vec<String>,
}

/// The contents of a list of strings.
pub open spec fn name_views(names: Seq<String>) -> Seq<Seq<char>> {
    names.map_values(|s: String| s@)
}

/// Whether one reported name, if it could be read, is `name`.
pub open spec fn reports(report: Option<String>, name: Seq<char>) -> bool {
    report matches Some(s) && s@ == name
}

/// The set of the names that a sample reports. A process whose name could not
/// be read as text is reported as `None` and adds nothing.
pub open spec fn reported_names(reported: Seq<Option<String>>) -> Set<Seq<char>> {
    Set::new(
        |name: Seq<char>|
            exists|i: int| 0 <= i < reported.len() && #[trigger] reports(reported[i], name),
    )
}

impl View for ProcessSnapshot {
    type V = Set<Seq<char>>;

    closed spec fn view(&self) -> Set<Seq<char>> {
        self.set@
    }
}

impl ProcessSnapshot {
    #[verifier::type_invariant]
    spec fn well_formed(&self) -> bool {
        &&& name_views(self.names@).no_duplicates()
        &&& self.set@ == name_views(self.names@).to_set()
    }

    /// The names of the snapshot as a list that holds each of them once.
    pub closed spec fn listing(&self) -> Seq<Seq<char>> {
        name_views(self.names@)
    }

    /// The snapshot of a host on which nothing runs.
    pub fn new() -> (snapshot: ProcessSnapshot)
        ensures
            snapshot@ == Set::<Seq<char>>::empty(),
            snapshot.listing() == Seq::<Seq<char>>::empty(),
    {
        let set = StringHashSet::new();
        let names: Vec<String> = Vec::new();
        assert(name_views(names@) =~= Seq::<Seq<char>>::empty());
        assert(name_views(names@).to_set() =~= Set::<Seq<char>>::empty());
        ProcessSnapshot { set, names }
    }

    /// Whether a process of that name was running. Names are compared exactly,
    /// letter case included.
    pub fn contains(&self, name: &str) -> (found: bool)
        ensures
            found == self@.contains(name@),
    {
        self.set.contains(name)
    }

    /// How many distinct names the snapshot holds.
    pub fn len(&self) -> (n: usize)
        ensures
            n == self.listing().len(),
            n == self@.len(),
            self@.finite(),
            self.listing().no_duplicates(),
            self.listing().to_set() == self@,
    {
        proof {
            use_type_invariant(self);
            name_views(self.names@).unique_seq_to_set();
        }
        self.names.len()
    }

    /// The name at position `i` of the listing.
    pub fn name_at(&self, i: usize) -> (name: &String)
        requires
            i < self.listing().len(),
        ensures
            name@ == self.listing()[i as int],
    {
        &self.names[i]
    }
}

/// Builds the snapshot of one sample: the set of all names that were reported,
/// duplicates collapsed, letter case kept as reported.
pub fn fetch_processes(reported: &Vec<Option<String>>) -> (snapshot: ProcessSnapshot)
    ensures
        snapshot@ == reported_names(reported@),
{
    let mut set = StringHashSet::new();
    let mut names: Vec<String> = Vec::new();
    assert(name_views(names@).to_set() =~= Set::<Seq<char>>::empty());
    let mut i: usize = 0;
    while i < reported.len()
        invariant
            i <= reported.len(),
            name_views(names@).no_duplicates(),
            set@ == name_views(names@).to_set(),
            set@ == reported_names(reported@.take(i as int)),
        decreases reported.len() - i,
    {
        let ghost before = name_views(names@);
        let ghost seen = reported@.take(i as int);
        let ghost next = reported@.take(i + 1);
        assert(seen =~= next.take(i as int));
        assert(next[i as int] == reported@[i as int]);
        match &reported[i] {
            Some(name) => {
                if !set.contains(name.as_str()) {
                    set.insert(name.clone());
                    names.push(name.clone());
                    assert(name_views(names@) =~= before.push(name@));
                    assert(!before.contains(name@));
                    proof {
                        before.lemma_push_to_set_commute(name@);
                    }
                }
                assert(set@ =~= reported_names(seen).insert(name@));
                assert(reports(next[i as int], name@));
                assert forall|n: Seq<char>| #[trigger]
                    reported_names(next).contains(n) <==> reported_names(seen).insert(name@).contains(
                        n,
                    ) by {
                    if reported_names(next).contains(n) {
                        let j = choose|j: int| 0 <= j < next.len() && reports(next[j], n);
                        if j < i {
                            assert(reports(seen[j], n));
                        }
                    }
                    if reported_names(seen).contains(n) {
                        let j = choose|j: int| 0 <= j < seen.len() && reports(seen[j], n);
                        assert(reports(next[j], n));
                    }
                }
                assert(set@ =~= reported_names(next));
            },
            None => {
                assert forall|n: Seq<char>| #[trigger]
                    reported_names(next).contains(n) <==> reported_names(seen).contains(n) by {
                    if reported_names(next).contains(n) {
                        let j = choose|j: int| 0 <= j < next.len() && reports(next[j], n);
                        assert(reports(seen[j], n));
                    }
                    if reported_names(seen).contains(n) {
                        let j = choose|j: int| 0 <= j < seen.len() && reports(seen[j], n);
                        assert(reports(next[j], n));
                    }
                }
                assert(set@ =~= reported_names(next));
            },
        }
        i += 1;
    }
    assert(reported@.take(i as int) =~= reported@);
    ProcessSnapshot { set, names }
}

/// The snapshot after an attempt to sample the host: that of the sample, or,
/// where the host could not be queried, the previous snapshot unchanged.
pub fn refresh_snapshot(previous: ProcessSnapshot, sample: &Option<Vec<Option<String>>>) -> (next:
    ProcessSnapshot)
    ensures
        next@ == match *sample {
            Some(reported) => reported_names(reported@),
            None => previous@,
        },
{
    match sample {
        Some(reported) => fetch_processes(reported),
        None => previous,
    }
}

} // verus!
