use vstd::prelude::*;
use vstd::string::StringExecFns;

verus! {

/// What the cache answers for `name` without probing: `None` means unknown.
pub open spec fn cached(m: Map<Seq<char>, bool>, name: Seq<char>) -> Option<bool> {
    if m.contains_key(name) {
        Some(m[name])
    } else {
        None
    }
}

/// The outcome of a presence lookup as the cache records it: a lookup that
/// could not run counts as "not available".
pub open spec fn availability_of(lookup: Option<bool>) -> bool {
    match lookup {
        Some(found) => found,
        None => false,
    }
}

/// Recording a probe: the first answer for a name is kept for good.
pub open spec fn recorded(m: Map<Seq<char>, bool>, name: Seq<char>, available: bool) -> Map<
    Seq<char>,
    bool,
> {
    if m.contains_key(name) {
        m
    } else {
        m.insert(name, available)
    }
}

/// Recording the probes of a preload, in order.
pub open spec fn recorded_all(m: Map<Seq<char>, bool>, probes: Seq<(Seq<char>, Option<bool>)>) -> Map<
    Seq<char>,
    bool,
>
    decreases probes.len(),
{
    if probes.len() == 0 {
        m
    } else {
        let last = probes.last();
        recorded(recorded_all(m, probes.drop_last()), last.0, availability_of(last.1))
    }
}

/// The probes of a preload as the cache sees them: each name's text with the
/// outcome of its lookup.
pub open spec fn probe_views(probes: Seq<(String, Option<bool>)>) -> Seq<(Seq<char>, Option<bool>)> {
    probes.map_values(|p: (String, Option<bool>)| (p.0@, p.1))
}

/// Memoization: once a name is recorded, the cache answers for it without a
/// lookup, and a second probe's outcome changes nothing.
pub proof fn law_probe_memoized(
    m: Map<Seq<char>, bool>,
    name: Seq<char>,
    first: Option<bool>,
    second: Option<bool>,
)
    ensures
        cached(recorded(m, name, availability_of(first)), name) is Some,
        recorded(recorded(m, name, availability_of(first)), name, availability_of(second))
            == recorded(m, name, availability_of(first)),
{
}

/// Preloading: after the probes of a preload are recorded, every name probed
/// is known, and nothing known before has changed.
pub proof fn law_preload_makes_known(
    m: Map<Seq<char>, bool>,
    probes: Seq<(Seq<char>, Option<bool>)>,
)
    ensures
        forall|i: int|
            0 <= i < probes.len() ==> cached(recorded_all(m, probes), #[trigger] probes[i].0) is Some,
        forall|k: Seq<char>| #[trigger]
            m.contains_key(k) ==> recorded_all(m, probes).contains_key(k) && recorded_all(
                m,
                probes,
            )[k] == m[k],
    decreases probes.len(),
{
    if probes.len() > 0 {
        let dl = probes.drop_last();
        law_preload_makes_known(m, dl);
        assert forall|i: int| 0 <= i < probes.len() implies cached(
            recorded_all(m, probes),
            #[trigger] probes[i].0,
        ) is Some by {
            if i < probes.len() - 1 {
                assert(probes[i] == dl[i]);
            }
        }
    }
}

/// The tools whose availability is worth loading at startup.
pub fn common_commands() -> (r: Vec<String>)
    ensures
        r@.len() == 4,
        r@[0]@ == "flatpak"@,
        r@[1]@ == "dnf5"@,
        r@[2]@ == "cat"@,
        r@[3]@ == "uname"@,
{
    let mut r: Vec<String> = Vec::new();
    r.push(String::from_str("flatpak"));
    r.push(String::from_str("dnf5"));
    r.push(String::from_str("cat"));
    r.push(String::from_str("uname"));
    r
}

/// One tool's recorded availability.
#[derive(Debug)]
struct ToolEntry {
    name: String,
    available: bool,
}

/// Memoizes whether external tools are installed. A name's availability is
/// recorded once and then answered from here for the rest of the run.
pub struct CommandCache {
    entries: Vec<ToolEntry>,
    known: Ghost<Map<Seq<char>, bool>>,
}

impl View for CommandCache {
    type V = Map<Seq<char>, bool>;

    closed spec fn view(&self) -> Map<Seq<char>, bool> {
        self.known@
    }
}

impl CommandCache {
    /// Each entry stands for its name in the map, each name of the map has an
    /// entry, and no name has two.
    pub closed spec fn wf(&self) -> bool {
        &&& forall|i: int|
            0 <= i < self.entries@.len() ==> {
                let e = #[trigger] self.entries@[i];
                self.known@.contains_key(e.name@) && self.known@[e.name@] == e.available
            }
        &&& forall|k: Seq<char>|
            #[trigger] self.known@.contains_key(k) ==> exists|i: int|
                0 <= i < self.entries@.len() && (#[trigger] self.entries@[i]).name@ == k
        &&& forall|i: int, j: int|
            0 <= i < j < self.entries@.len() ==> (#[trigger] self.entries@[i]).name@
                != (#[trigger] self.entries@[j]).name@
    }

    /// An empty cache: nothing is known yet.
    pub fn new() -> (r: Self)
        ensures
            r.wf(),
            r@ == Map::<Seq<char>, bool>::empty(),
    {
        CommandCache { entries: Vec::new(), known: Ghost(Map::empty()) }
    }

    /// The index of `name`'s entry, if it has one.
    fn position(&self, name: &str) -> (r: Option<usize>)
        requires
            self.wf(),
        ensures
            match r {
                Some(i) => i < self.entries@.len() && self.entries@[i as int].name@ == name@,
                None => !self@.contains_key(name@),
            },
    {
        let target = String::from_str(name);
        let mut i: usize = 0;
        while i < self.entries.len()
            invariant
                i <= self.entries@.len(),
                target@ == name@,
                forall|k: int| 0 <= k < i ==> (#[trigger] self.entries@[k]).name@ != name@,
            decreases self.entries@.len() - i,
        {
            if self.entries[i].name == target {
                return Some(i);
            }
            i = i + 1;
        }
        None
    }

    /// The recorded availability of `name`, without probing; `None` when it
    /// has not been recorded.
    pub fn is_cached_available(&self, name: &str) -> (r: Option<bool>)
        requires
            self.wf(),
        ensures
            r == cached(self@, name@),
    {
        match self.position(name) {
            Some(i) => Some(self.entries[i].available),
            None => None,
        }
    }

    /// Same as `is_cached_available`: lets a caller skip a probe whose answer
    /// is already known.
    pub fn get_cached_availability(&self, name: &str) -> (r: Option<bool>)
        requires
            self.wf(),
        ensures
            r == cached(self@, name@),
    {
        self.is_cached_available(name)
    }

    /// Records the outcome of a presence lookup for `name` (`None`: the lookup
    /// itself could not run) and returns the availability now on record. An
    /// earlier record is kept, so a name is never re-probed.
    pub fn record_probe(&mut self, name: &str, lookup: Option<bool>) -> (r: bool)
        requires
            old(self).wf(),
        ensures
            final(self).wf(),
            final(self)@ == recorded(old(self)@, name@, availability_of(lookup)),
            r == final(self)@[name@],
    {
        match self.position(name) {
            Some(i) => self.entries[i].available,
            None => {
                let available = match lookup {
                    Some(found) => found,
                    None => false,
                };
                let ghost old_entries = self.entries@;
                let ghost old_known = self.known@;
                self.entries.push(ToolEntry { name: String::from_str(name), available });
                self.known = Ghost(self.known@.insert(name@, available));
                proof {
                    let n = old_entries.len() as int;
                    assert(self.entries@[n].name@ == name@);
                    assert forall|k: Seq<char>| #[trigger]
                        self.known@.contains_key(k) implies exists|i: int|
                        0 <= i < self.entries@.len() && (#[trigger] self.entries@[i]).name@ == k by {
                        if k != name@ {
                            assert(old_known.contains_key(k));
                            let i = choose|i: int|
                                0 <= i < old_entries.len() && (#[trigger] old_entries[i]).name@
                                    == k;
                            assert(self.entries@[i] == old_entries[i]);
                        }
                    }
                    assert forall|i: int| 0 <= i < self.entries@.len() implies {
                        let e = #[trigger] self.entries@[i];
                        self.known@.contains_key(e.name@) && self.known@[e.name@] == e.available
                    } by {
                        if i < n {
                            assert(self.entries@[i] == old_entries[i]);
                        }
                    }
                    assert forall|i: int, j: int|
                        0 <= i < j < self.entries@.len() implies (#[trigger] self.entries@[i]).name@
                        != (#[trigger] self.entries@[j]).name@ by {
                        assert(self.entries@[i] == old_entries[i]);
                        if j < n {
                            assert(self.entries@[j] == old_entries[j]);
                        }
                    }
                }
                available
            },
        }
    }

    /// Records the outcomes of the concurrent probes of a preload, in order.
    pub fn record_preload(&mut self, probes: &Vec<(String, Option<bool>)>)
        requires
            old(self).wf(),
        ensures
            final(self).wf(),
            final(self)@ == recorded_all(old(self)@, probe_views(probes@)),
    {
        let ghost start = self@;
        let mut i: usize = 0;
        while i < probes.len()
            invariant
                self.wf(),
                i <= probes@.len(),
                self@ == recorded_all(start, probe_views(probes@).take(i as int)),
            decreases probes@.len() - i,
        {
            let (name, lookup) = &probes[i];
            self.record_probe(name.as_str(), *lookup);
            proof {
                let pv = probe_views(probes@);
                assert(pv.take(i + 1).drop_last() =~= pv.take(i as int));
            }
            i = i + 1;
        }
        proof {
            assert(probe_views(probes@).take(probes@.len() as int) =~= probe_views(probes@));
        }
    }
}

} // verus!
