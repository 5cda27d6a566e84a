use vstd::prelude::*;

verus! {

/// A client's registered destination, as written in the configuration.
pub struct ClientConfig {
    pub id: String,
    pub log_path: String,
}

/// What a `ClientConfig` holds, as text.
pub struct ClientEntryView {
    pub id: Seq<char>,
    pub log_path: Seq<char>,
}

impl View for ClientConfig {
    type V = ClientEntryView;

    open spec fn view(&self) -> ClientEntryView {
        ClientEntryView { id: self.id@, log_path: self.log_path@ }
    }
}

impl ClientConfig {
    pub fn new(id: String, log_path: String) -> (r: ClientConfig)
        ensures
            r.id@ == id@,
            r.log_path@ == log_path@,
    {
        ClientConfig { id, log_path }
    }
}

/// What a `Config` holds: the base directory and the registry, keyed by
/// client identifier.
pub struct ConfigView {
    pub basedir: Seq<char>,
    pub clients: Map<Seq<char>, ClientEntryView>,
}

/// The process-wide configuration: a base directory and the registered
/// clients. Each key is registered at most once.
pub struct Config {
    basedir: String,
    clients: Vec<(String, ClientConfig)>,
    registry: Ghost<Map<Seq<char>, ClientEntryView>>,
}

/// `entries` lists `registry` exactly, each key once.
spec fn lists_registry(
    entries: Seq<(String, ClientConfig)>,
    registry: Map<Seq<char>, ClientEntryView>,
) -> bool {
    &&& forall|i: int|
        0 <= i < entries.len() ==> {
            &&& #[trigger] registry.contains_key(entries[i].0@)
            &&& registry[entries[i].0@] == entries[i].1@
        }
    &&& forall|k: Seq<char>| #[trigger]
        registry.contains_key(k) ==> exists|i: int| 0 <= i < entries.len() && #[trigger] entries[i].0@ == k
    &&& forall|i: int, j: int|
        0 <= i < entries.len() && 0 <= j < entries.len() && i != j ==> #[trigger] entries[i].0@
            != #[trigger] entries[j].0@
}

impl View for Config {
    type V = ConfigView;

    closed spec fn view(&self) -> ConfigView {
        ConfigView { basedir: self.basedir@, clients: self.registry@ }
    }
}

impl Config {
    #[verifier::type_invariant]
    spec fn entries_match(self) -> bool {
        lists_registry(self.clients@, self.registry@)
    }

    /// A configuration with no clients registered.
    pub fn new(basedir: String) -> (r: Config)
        ensures
            r@.basedir == basedir@,
            r@.clients == Map::<Seq<char>, ClientEntryView>::empty(),
    {
        Config { basedir, clients: Vec::new(), registry: Ghost(Map::empty()) }
    }

    pub fn basedir(&self) -> (r: &str)
        ensures
            r@ == self@.basedir,
    {
        self.basedir.as_str()
    }

    /// The position of `key` in the entries, if it is registered.
    fn position(&self, key: &String) -> (r: Option<usize>)
        ensures
            match r {
                Some(i) => i < self.clients@.len() && self.clients@[i as int].0@ == key@,
                None => !self@.clients.contains_key(key@),
            },
    {
        proof { use_type_invariant(self); }
        let mut i: usize = 0;
        while i < self.clients.len()
            invariant
                i <= self.clients@.len(),
                forall|j: int| 0 <= j < i ==> self.clients@[j].0@ != key@,
            decreases self.clients@.len() - i,
        {
            if self.clients[i].0.eq(key) {
                return Some(i);
            }
            i = i + 1;
        }
        None
    }

    /// The entry registered under `key`.
    pub fn get(&self, key: &String) -> (r: Option<&ClientConfig>)
        ensures
            match r {
                Some(entry) => self@.clients.contains_key(key@) && entry@ == self@.clients[key@],
                None => !self@.clients.contains_key(key@),
            },
    {
        proof { use_type_invariant(self); }
        match self.position(key) {
            Some(i) => {
                assert(self.registry@.contains_key(self.clients@[i as int].0@));
                Some(&self.clients[i].1)
            },
            None => None,
        }
    }

    /// Registers `entry` under `key`, replacing what was registered there.
    pub fn insert_client(&mut self, key: String, entry: ClientConfig)
        ensures
            final(self)@.basedir == old(self)@.basedir,
            final(self)@.clients == old(self)@.clients.insert(key@, entry@),
    {
        proof { use_type_invariant(&*self); }
        let found = self.position(&key);
        let mut current = Config::new(String::new());
        std::mem::swap(&mut current, self);
        proof { use_type_invariant(&current); }
        let Config { basedir, mut clients, registry } = current;
        let ghost before = clients@;
        let ghost registry2 = registry@.insert(key@, entry@);
        match found {
            Some(i) => {
                clients.set(i, (key, entry));
                assert forall|j: int| 0 <= j < clients@.len() implies {
                    &&& #[trigger] registry2.contains_key(clients@[j].0@)
                    &&& registry2[clients@[j].0@] == clients@[j].1@
                } by {
                    if j != i {
                        assert(before[j].0@ != before[i as int].0@);
                    }
                }
                assert forall|k: Seq<char>| #[trigger] registry2.contains_key(k) implies exists|j: int|
                    0 <= j < clients@.len() && #[trigger] clients@[j].0@ == k by {
                    if k != clients@[i as int].0@ {
                        let j = choose|j: int| 0 <= j < before.len() && #[trigger] before[j].0@ == k;
                        assert(clients@[j].0@ == k);
                    }
                }
                assert forall|a: int, b: int|
                    0 <= a < clients@.len() && 0 <= b < clients@.len() && a != b
                    implies #[trigger] clients@[a].0@ != #[trigger] clients@[b].0@ by {
                    assert(before[a].0@ != before[b].0@);
                }
                assert(lists_registry(clients@, registry2));
            },
            None => {
                clients.push((key, entry));
                let ghost n = before.len() as int;
                assert forall|j: int| 0 <= j < n implies before[j].0@ != key@ by {
                    assert(registry@.contains_key(before[j].0@));
                }
                assert forall|j: int| 0 <= j < clients@.len() implies {
                    &&& #[trigger] registry2.contains_key(clients@[j].0@)
                    &&& registry2[clients@[j].0@] == clients@[j].1@
                } by {
                    if j < n {
                        assert(clients@[j] == before[j]);
                        assert(registry@.contains_key(before[j].0@));
                    }
                }
                assert forall|k: Seq<char>| #[trigger] registry2.contains_key(k) implies exists|j: int|
                    0 <= j < clients@.len() && #[trigger] clients@[j].0@ == k by {
                    if k != clients@[n].0@ {
                        let j = choose|j: int| 0 <= j < before.len() && #[trigger] before[j].0@ == k;
                        assert(clients@[j].0@ == k);
                    }
                }
                assert forall|a: int, b: int|
                    0 <= a < clients@.len() && 0 <= b < clients@.len() && a != b
                    implies #[trigger] clients@[a].0@ != #[trigger] clients@[b].0@ by {
                    if a < n && b < n {
                        assert(before[a].0@ != before[b].0@);
                    }
                }
                assert(lists_registry(clients@, registry2));
            },
        }
        *self = Config { basedir, clients, registry: Ghost(registry2) };
    }
}

} // verus!
