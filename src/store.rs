use vstd::prelude::*;
use crate::error::AppError;

verus! {

/// One shortened link: its identifier and the URL it stands for.
#[derive(Debug, Clone)]
pub struct Link {
    pub id: String,
    pub url: String,
}

/// A table of links keyed by identifier, with the semantics of the database
/// table: an insert fails on an identifier already present, a lookup fails on
/// one that is absent, and nothing is ever updated or removed.
pub struct LinkTable {
    links: Vec<Link>,
    contents: Ghost<Map<Seq<char>, Seq<char>>>,
}

impl View for LinkTable {
    type V = Map<Seq<char>, Seq<char>>;

    closed spec fn view(&self) -> Map<Seq<char>, Seq<char>> {
        self.contents@
    }
}

/// The message the database gives when a lookup finds no row.
pub const NO_ROW_MESSAGE: &'static str = "no rows returned by a query that expected to return at least one row";

/// The message the database gives when an insert repeats an identifier.
pub const DUPLICATE_KEY_MESSAGE: &'static str = "error returned from database: duplicate key value violates unique constraint \"urls_pkey\"";

impl LinkTable {
    pub closed spec fn wf(&self) -> bool {
        &&& forall|i: int, j: int|
            0 <= i < j < self.links@.len() ==> #[trigger] self.links@[i].id@
                != #[trigger] self.links@[j].id@
        &&& forall|i: int|
            0 <= i < self.links@.len() ==> self.contents@.contains_key(
                #[trigger] self.links@[i].id@,
            ) && self.contents@[self.links@[i].id@] == self.links@[i].url@
        &&& forall|k: Seq<char>|
            #[trigger] self.contents@.contains_key(k) ==> exists|i: int|
                0 <= i < self.links@.len() && #[trigger] self.links@[i].id@ == k
    }

    /// An empty table.
    pub fn new() -> (r: LinkTable)
        ensures
            r.wf(),
            r@ == Map::<Seq<char>, Seq<char>>::empty(),
    {
        LinkTable { links: Vec::new(), contents: Ghost(Map::empty()) }
    }

    /// The number of links in the table.
    pub fn len(&self) -> (r: usize)
        requires
            self.wf(),
        ensures
            r == self@.len(),
    {
        proof {
            self.lemma_len();
        }
        self.links.len()
    }

    proof fn lemma_len(&self)
        requires
            self.wf(),
        ensures
            self@.dom() == self.links@.map_values(|l: Link| l.id@).to_set(),
            self@.len() == self.links@.len(),
    {
        let ids = self.links@.map_values(|l: Link| l.id@);
        assert(self@.dom() =~= ids.to_set()) by {
            assert forall|k: Seq<char>| self@.dom().contains(k) implies ids.to_set().contains(
                k,
            ) by {
                let i = choose|i: int| 0 <= i < self.links@.len() && #[trigger] self.links@[i].id@ == k;
                assert(ids[i] == k);
            }
            assert forall|k: Seq<char>| ids.to_set().contains(k) implies self@.dom().contains(
                k,
            ) by {
                let i = choose|i: int| 0 <= i < ids.len() && ids[i] == k;
                assert(self.links@[i].id@ == k);
            }
        }
        assert(ids.no_duplicates()) by {
            assert forall|i: int, j: int| 0 <= i < ids.len() && 0 <= j < ids.len() && i != j implies ids[i] != ids[j] by {
                if i < j {
                    assert(self.links@[i].id@ != self.links@[j].id@);
                } else {
                    assert(self.links@[j].id@ != self.links@[i].id@);
                }
            }
        }
        ids.unique_seq_to_set();
    }

    /// The index of the link with identifier `id`, if there is one.
    fn position(&self, id: &String) -> (r: Option<usize>)
        requires
            self.wf(),
        ensures
            r is Some <==> self@.contains_key(id@),
            r is Some ==> r->Some_0 < self.links@.len() && self.links@[r->Some_0 as int].id@ == id@,
    {
        let mut i: usize = 0;
        while i < self.links.len()
            invariant
                self.wf(),
                0 <= i <= self.links@.len(),
                forall|j: int| 0 <= j < i ==> self.links@[j].id@ != id@,
            decreases self.links@.len() - i,
        {
            if self.links[i].id == *id {
                return Some(i);
            }
            i = i + 1;
        }
        proof {
            if self@.contains_key(id@) {
                let j = choose|j: int| 0 <= j < self.links@.len() && #[trigger] self.links@[j].id@ == id@;
                assert(self.links@[j].id@ == id@);
            }
        }
        None
    }

    /// Stores `link`. Fails, leaving the table as it was, where its identifier
    /// is already taken.
    pub fn insert(&mut self, link: Link) -> (r: Result<(), AppError>)
        requires
            old(self).wf(),
        ensures
            final(self).wf(),
            r is Ok <==> !old(self)@.contains_key(link.id@),
            r is Ok ==> final(self)@ == old(self)@.insert(link.id@, link.url@),
            r is Err ==> final(self)@ == old(self)@ && r->Err_0 is DatabaseError
                && r->Err_0->DatabaseError_0@ == DUPLICATE_KEY_MESSAGE@,
    {
        if self.position(&link.id).is_some() {
            return Err(AppError::DatabaseError(String::from_str(DUPLICATE_KEY_MESSAGE)));
        }
        let ghost old_links = self.links@;
        let ghost id = link.id@;
        let ghost url = link.url@;
        self.contents = Ghost(self.contents@.insert(id, url));
        self.links.push(link);
        proof {
            let n = old_links.len() as int;
            assert(self.links@[n].id@ == id);
            assert forall|k: Seq<char>| #[trigger] self.contents@.contains_key(k) implies exists|
                i: int,
            | 0 <= i < self.links@.len() && #[trigger] self.links@[i].id@ == k by {
                if k == id {
                    assert(self.links@[n].id@ == k);
                } else {
                    assert(old(self).contents@.contains_key(k));
                    let i = choose|i: int| 0 <= i < old_links.len() && #[trigger] old_links[i].id@ == k;
                    assert(self.links@[i].id@ == k);
                }
            }
            assert forall|i: int|
                0 <= i < self.links@.len() implies self.contents@.contains_key(
                #[trigger] self.links@[i].id@,
            ) && self.contents@[self.links@[i].id@] == self.links@[i].url@ by {
                if i < n {
                    assert(self.links@[i] == old_links[i]);
                    assert(old_links[i].id@ != id);
                }
            }
        }
        Ok(())
    }

    /// The URL stored under `id`. Fails where no link has that identifier.
    pub fn lookup(&self, id: &str) -> (r: Result<String, AppError>)
        requires
            self.wf(),
        ensures
            r is Ok <==> self@.contains_key(id@),
            r is Ok ==> r->Ok_0@ == self@[id@],
            r is Err ==> r->Err_0 is DatabaseError && r->Err_0->DatabaseError_0@
                == NO_ROW_MESSAGE@,
    {
        let key = String::from_str(id);
        match self.position(&key) {
            Some(i) => Ok(self.links[i].url.clone()),
            None => Err(AppError::DatabaseError(String::from_str(NO_ROW_MESSAGE))),
        }
    }
}

} // verus!
