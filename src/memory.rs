use vstd::prelude::*;
use crate::models::Contact;
use crate::repo::{
    Addressing, FileRepository, Files, RepoError, Repository, fetched, id_file_name, stored,
};

verus! {

/// The directory that a sequence of writes leaves: each write creates or
/// overwrites the file it names, so the latest write to a name wins.
pub open spec fn files_of(writes: Seq<(String, Contact)>) -> Files
    decreases writes.len(),
{
    if writes.len() == 0 {
        Map::empty()
    } else {
        files_of(writes.drop_last()).insert(writes.last().0@, writes.last().1@)
    }
}

proof fn lemma_latest_write(writes: Seq<(String, Contact)>, i: int, name: Seq<char>)
    requires
        0 <= i < writes.len(),
        writes[i].0@ == name,
        forall|j: int| i < j < writes.len() ==> writes[j].0@ != name,
    ensures
        files_of(writes).contains_key(name),
        files_of(writes)[name] == writes[i].1@,
    decreases writes.len(),
{
    if i < writes.len() - 1 {
        let rest = writes.drop_last();
        assert forall|j: int| i < j < rest.len() implies rest[j].0@ != name by {
            assert(rest[j] == writes[j]);
        }
        lemma_latest_write(rest, i, name);
    }
}

proof fn lemma_never_written(writes: Seq<(String, Contact)>, name: Seq<char>)
    requires
        forall|j: int| 0 <= j < writes.len() ==> writes[j].0@ != name,
    ensures
        !files_of(writes).contains_key(name),
    decreases writes.len(),
{
    if writes.len() > 0 {
        let rest = writes.drop_last();
        assert forall|j: int| 0 <= j < rest.len() implies rest[j].0@ != name by {
            assert(rest[j] == writes[j]);
        }
        lemma_never_written(rest, name);
    }
}

/// A repository held in memory, with the file names of a `FileRepository`.
pub struct MemoryRepository {
    layout: FileRepository,
    writes: Vec<(String, Contact)>,
}

impl MemoryRepository {
    /// An empty repository that names its records as `layout` does.
    pub fn new(layout: FileRepository) -> (r: MemoryRepository)
        ensures
            r.addressing_of() == layout.spec_addressing(),
            r.files() == Files::empty(),
            r.infallible(),
    {
        MemoryRepository { layout, writes: Vec::new() }
    }

    /// The file naming that this repository follows.
    pub fn layout(&self) -> (r: &FileRepository)
        ensures
            r.spec_addressing() == self.addressing_of(),
    {
        &self.layout
    }

    /// Stores `obj`, creating or overwriting its file; this never fails.
    pub fn store(&mut self, obj: Contact) -> (r: Contact)
        ensures
            r@ == obj@,
            final(self).addressing_of() == old(self).addressing_of(),
            final(self).files() == stored(old(self).files(), old(self).addressing_of(), obj@),
    {
        let name = self.layout.file_name_for_record(&obj);
        let r = obj.duplicate();
        let ghost before = self.writes@;
        self.writes.push((name, obj));
        assert(self.writes@.drop_last() =~= before);
        r
    }

    /// The record held under the file name that `id` maps to, if any.
    pub fn fetch(&self, id: &str) -> (r: Option<Contact>)
        ensures
            match r {
                Some(c) => fetched(self.files(), self.addressing_of(), id@) == Some(c@),
                None => fetched(self.files(), self.addressing_of(), id@) is None,
            },
    {
        let name = self.layout.file_name_for_id(id);
        let mut i: usize = self.writes.len();
        while i > 0
            invariant
                i <= self.writes.len(),
                name@ == id_file_name(self.layout.spec_addressing(), id@),
                forall|j: int| i <= j < self.writes.len() ==> self.writes@[j].0@ != name@,
            decreases i,
        {
            i = i - 1;
            if self.writes[i].0 == name {
                proof {
                    lemma_latest_write(self.writes@, i as int, name@);
                }
                return Some(self.writes[i].1.duplicate());
            }
        }
        proof {
            lemma_never_written(self.writes@, name@);
        }
        None
    }
}

impl Repository for MemoryRepository {
    closed spec fn addressing_of(&self) -> Addressing {
        self.layout.spec_addressing()
    }

    closed spec fn files(&self) -> Files {
        files_of(self.writes@)
    }

    open spec fn infallible(&self) -> bool {
        true
    }

    fn set(&mut self, obj: Contact) -> (r: Result<Contact, RepoError>)
        ensures
            r matches Ok(c) && c@ == obj@,
    {
        Ok(self.store(obj))
    }

    fn get(&self, id: &str) -> (r: Result<Contact, RepoError>)
        ensures
            fetched(self.files(), self.addressing_of(), id@) matches Some(v) ==> (r matches Ok(c)
                && c@ == v),
    {
        match self.fetch(id) {
            Some(c) => Ok(c),
            None => Err(RepoError::NotFound),
        }
    }
}

} // verus!
