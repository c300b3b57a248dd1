//! Handlers registered by method name.
use vstd::prelude::*;

verus! {

/// Handlers keyed by method name. Registering a name a second time replaces
/// the handler registered before.
pub struct Registry<H> {
    names: Vec<String>,
    handlers: Vec<H>,
}

impl<H> View for Registry<H> {
    type V = Map<Seq<char>, H>;

    /// The handler registered for each name.
    closed spec fn view(&self) -> Map<Seq<char>, H> {
        Map::new(
            |k: Seq<char>| self.keys().contains(k),
            |k: Seq<char>| self.handlers@[self.keys().index_of(k)],
        )
    }
}

impl<H> Registry<H> {
    /// The registered names, in registration order.
    pub closed spec fn keys(&self) -> Seq<Seq<char>> {
        self.names@.map_values(|s: String| s@)
    }

    /// The handlers, in the order of their names.
    pub closed spec fn entries(&self) -> Seq<H> {
        self.handlers@
    }

    /// Each name occurs once, and there is one handler per name.
    pub closed spec fn wf(&self) -> bool {
        &&& self.names@.len() == self.handlers@.len()
        &&& self.keys().no_duplicates()
    }

    proof fn lemma_view_at(&self, i: int)
        requires
            self.wf(),
            0 <= i < self.keys().len(),
        ensures
            self.view().contains_key(self.keys()[i]),
            self.view()[self.keys()[i]] == self.handlers@[i],
    {
        let k = self.keys()[i];
        assert(self.keys().contains(k));
        let j = self.keys().index_of(k);
        assert(0 <= j < self.keys().len() && self.keys()[j] == k);
        assert(j == i);
    }

    pub fn new() -> (r: Registry<H>)
        ensures
            r.wf(),
            r.view() == Map::<Seq<char>, H>::empty(),
    {
        let r = Registry { names: Vec::new(), handlers: Vec::new() };
        assert(r.view() =~= Map::<Seq<char>, H>::empty());
        r
    }

    /// The position of `name` among the registered names, if it is registered.
    fn position(&self, name: &String) -> (pos: Option<usize>)
        requires
            self.wf(),
        ensures
            match pos {
                Some(i) => i < self.keys().len() && self.keys()[i as int] == name@,
                None => !self.keys().contains(name@),
            },
    {
        let mut i: usize = 0;
        while i < self.names.len()
            invariant
                self.wf(),
                i <= self.names@.len(),
                forall|j: int| 0 <= j < i ==> self.keys()[j] != name@,
            decreases self.names@.len() - i,
        {
            if self.names[i] == *name {
                return Some(i);
            }
            i = i + 1;
        }
        None
    }

    /// The handler registered for `name`, if any.
    pub fn get(&self, name: &String) -> (h: Option<&H>)
        requires
            self.wf(),
        ensures
            match h {
                Some(h) => self.view().contains_key(name@) && *h == self.view()[name@],
                None => !self.view().contains_key(name@),
            },
    {
        match self.position(name) {
            Some(i) => {
                proof {
                    self.lemma_view_at(i as int);
                }
                Some(&self.handlers[i])
            },
            None => None,
        }
    }

    /// Registers `handler` for `name`, replacing any handler registered for it.
    pub fn insert(&mut self, name: String, handler: H)
        requires
            old(self).wf(),
        ensures
            final(self).wf(),
            final(self).view() == old(self).view().insert(name@, handler),
    {
        let ghost old_self = *self;
        match self.position(&name) {
            Some(i) => {
                self.handlers.set(i, handler);
                assert(self.keys() =~= old_self.keys());
                assert forall|k: Seq<char>| #[trigger] self.view().contains_key(k) implies
                    self.view()[k] == old_self.view().insert(name@, handler)[k] by {
                    let j = self.keys().index_of(k);
                    old_self.lemma_view_at(j);
                    self.lemma_view_at(j);
                }
                assert(self.view() =~= old_self.view().insert(name@, handler));
            },
            None => {
                self.names.push(name);
                self.handlers.push(handler);
                assert(self.keys() =~= old_self.keys().push(name@));
                assert(self.keys().no_duplicates());
                assert forall|k: Seq<char>| #[trigger] self.view().contains_key(k) implies
                    self.view()[k] == old_self.view().insert(name@, handler)[k] by {
                    let j = self.keys().index_of(k);
                    self.lemma_view_at(j);
                    if j < old_self.keys().len() {
                        old_self.lemma_view_at(j);
                    }
                }
                assert forall|k: Seq<char>| #[trigger] old_self.view().insert(name@, handler).contains_key(k)
                    implies self.view().contains_key(k) by {
                    if k != name@ {
                        let j = old_self.keys().index_of(k);
                        assert(self.keys()[j] == k);
                    } else {
                        assert(self.keys()[old_self.keys().len() as int] == k);
                    }
                }
                assert(self.view() =~= old_self.view().insert(name@, handler));
            },
        }
    }
}

} // verus!
