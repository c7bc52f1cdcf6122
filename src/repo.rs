use vstd::prelude::*;
use crate::models::{Contact, ContactView};
use crate::naming::{content_hash, decimal, decimal_of, hash_fields, lemma_decimal_injective};

verus! {

/// How a repository names the file that holds a record.
#[derive(Debug, Clone, Copy, PartialEq, Eq, Structural)]
pub enum Addressing {
    /// One file per distinct record, named by the decimal content hash of its
    /// fields; a fetch by id reads the file named by that id.
    ContentHash,
    /// One file per id, named by the record's own id; a fetch by id reads the
    /// file named by that id.
    ById,
    /// One fixed file: every store overwrites it and every fetch reads it,
    /// whatever the id.
    SingleSlot,
}

/// Why a repository could not hand back a record.
#[derive(Debug, Clone, PartialEq, Eq)]
pub enum RepoError {
    /// No file is stored under the name that the id maps to.
    NotFound,
    /// The storage medium failed; the text says how.
    Storage(String),
}

/// The contents of a storage directory: the record held by each file name.
pub type Files = Map<Seq<char>, ContactView>;

/// The file name for a stem: the stem followed by `.json`.
pub open spec fn json_name(stem: Seq<char>) -> Seq<char> {
    stem + ".json"@
}

/// The name of the one file of a single-slot repository.
pub open spec fn slot_name() -> Seq<char> {
    "contact.json"@
}

/// The decimal content hash of a record: the id it is fetched by under
/// content-hash addressing.
pub open spec fn hash_key(c: ContactView) -> Seq<char> {
    decimal_of(content_hash(c.id, c.first_name, c.last_name) as nat)
}

/// The file a record is written to.
pub open spec fn record_file_name(a: Addressing, c: ContactView) -> Seq<char> {
    match a {
        Addressing::ContentHash => json_name(hash_key(c)),
        Addressing::ById => json_name(c.id),
        Addressing::SingleSlot => slot_name(),
    }
}

/// The file a fetch by `id` reads.
pub open spec fn id_file_name(a: Addressing, id: Seq<char>) -> Seq<char> {
    match a {
        Addressing::ContentHash | Addressing::ById => json_name(id),
        Addressing::SingleSlot => slot_name(),
    }
}

/// The id by which a stored record is fetched again.
pub open spec fn record_key(a: Addressing, c: ContactView) -> Seq<char> {
    match a {
        Addressing::ContentHash => hash_key(c),
        Addressing::ById | Addressing::SingleSlot => c.id,
    }
}

/// The directory after storing `c`: its file is created or overwritten.
pub open spec fn stored(files: Files, a: Addressing, c: ContactView) -> Files {
    files.insert(record_file_name(a, c), c)
}

/// What a fetch by `id` finds in the directory, if anything.
pub open spec fn fetched(files: Files, a: Addressing, id: Seq<char>) -> Option<ContactView> {
    let n = id_file_name(a, id);
    if files.contains_key(n) {
        Some(files[n])
    } else {
        None
    }
}

proof fn lemma_json_name_injective(a: Seq<char>, b: Seq<char>)
    requires
        json_name(a) == json_name(b),
    ensures
        a == b,
{
    assert(a =~= json_name(a).subrange(0, a.len() as int));
    assert(b =~= json_name(b).subrange(0, b.len() as int));
}

/// Storing a record and then fetching it by the id that the addressing gives
/// it returns that record, whatever the directory held before.
pub proof fn lemma_store_then_fetch(files: Files, a: Addressing, c: ContactView)
    ensures
        id_file_name(a, record_key(a, c)) == record_file_name(a, c),
        fetched(stored(files, a, c), a, record_key(a, c)) == Some(c),
{
}

/// Storing the same record twice leaves the directory as storing it once does.
pub proof fn lemma_store_idempotent(files: Files, a: Addressing, c: ContactView)
    ensures
        stored(stored(files, a, c), a, c) == stored(files, a, c),
{
    assert(stored(stored(files, a, c), a, c) =~= stored(files, a, c));
}

/// Under content-hash addressing, records with equal fields go to the same
/// file, and records whose content hashes differ go to different files.
pub proof fn lemma_content_addressing(c1: ContactView, c2: ContactView)
    ensures
        c1 == c2 ==> record_file_name(Addressing::ContentHash, c1) == record_file_name(
            Addressing::ContentHash,
            c2,
        ),
        content_hash(c1.id, c1.first_name, c1.last_name) != content_hash(
            c2.id,
            c2.first_name,
            c2.last_name,
        ) ==> record_file_name(Addressing::ContentHash, c1) != record_file_name(
            Addressing::ContentHash,
            c2,
        ),
{
    if record_file_name(Addressing::ContentHash, c1) == record_file_name(Addressing::ContentHash, c2) {
        lemma_json_name_injective(hash_key(c1), hash_key(c2));
        lemma_decimal_injective(
            content_hash(c1.id, c1.first_name, c1.last_name) as nat,
            content_hash(c2.id, c2.first_name, c2.last_name) as nat,
        );
    }
}

/// Under id addressing, two records go to the same file exactly when their
/// ids are equal, so a store replaces only the record with the same id.
pub proof fn lemma_id_addressing(c1: ContactView, c2: ContactView)
    ensures
        (record_file_name(Addressing::ById, c1) == record_file_name(Addressing::ById, c2)) <==> (
        c1.id == c2.id),
{
    if record_file_name(Addressing::ById, c1) == record_file_name(Addressing::ById, c2) {
        lemma_json_name_injective(c1.id, c2.id);
    }
}

/// Under single-slot addressing, storing `first` and then `second` makes a
/// fetch by any id return `second`.
pub proof fn lemma_single_slot_overwrite(
    files: Files,
    first: ContactView,
    second: ContactView,
    id: Seq<char>,
)
    ensures
        fetched(
            stored(stored(files, Addressing::SingleSlot, first), Addressing::SingleSlot, second),
            Addressing::SingleSlot,
            id,
        ) == Some(second),
{
}

/// A store of contact records, addressed as a `FileRepository` addresses its
/// files.
pub trait Repository {
    /// The addressing scheme that maps records and ids to file names.
    spec fn addressing_of(&self) -> Addressing;

    /// The record held under each file name.
    spec fn files(&self) -> Files;

    /// Whether the storage medium never fails: a store then always succeeds,
    /// and so does a fetch of a file that is there. A repository on a real
    /// file system can fail and says `false`.
    spec fn infallible(&self) -> bool;

    /// Stores `obj` under the file name its addressing gives it, creating or
    /// overwriting that file, and hands the record back.
    fn set(&mut self, obj: Contact) -> (r: Result<Contact, RepoError>)
        ensures
            final(self).addressing_of() == old(self).addressing_of(),
            final(self).infallible() == old(self).infallible(),
            old(self).infallible() ==> r is Ok,
            r matches Ok(c) ==> c@ == obj@ && final(self).files() == stored(
                old(self).files(),
                old(self).addressing_of(),
                obj@,
            ),
    ;

    /// Fetches the record held under the file name that `id` maps to; a
    /// missing file is `NotFound`, never a made-up record.
    fn get(&self, id: &str) -> (r: Result<Contact, RepoError>)
        ensures
            r matches Ok(c) ==> fetched(self.files(), self.addressing_of(), id@) == Some(c@),
            fetched(self.files(), self.addressing_of(), id@) is None ==> r matches Err(
                RepoError::NotFound,
            ),
            self.infallible() && fetched(self.files(), self.addressing_of(), id@) is Some ==> r is Ok,
    ;
}

/// Where a file-backed repository keeps its records, and how it names them.
pub struct FileRepository {
    path: String,
    addressing: Addressing,
}

impl FileRepository {
    /// A repository that keeps one file per record under `path`, named by
    /// the record's content hash.
    pub fn new(path: String) -> (r: FileRepository)
        ensures
            r.spec_path() == path@,
            r.spec_addressing() == Addressing::ContentHash,
    {
        FileRepository { path, addressing: Addressing::ContentHash }
    }

    /// A repository that keeps one file per id under `path`, named by the
    /// record's id.
    pub fn by_id(path: String) -> (r: FileRepository)
        ensures
            r.spec_path() == path@,
            r.spec_addressing() == Addressing::ById,
    {
        FileRepository { path, addressing: Addressing::ById }
    }

    /// A repository that keeps a single record in one fixed file under `path`.
    pub fn single_slot(path: String) -> (r: FileRepository)
        ensures
            r.spec_path() == path@,
            r.spec_addressing() == Addressing::SingleSlot,
    {
        FileRepository { path, addressing: Addressing::SingleSlot }
    }

    /// The directory that holds the files, as text.
    pub closed spec fn spec_path(&self) -> Seq<char> {
        self.path@
    }

    /// The addressing scheme.
    pub closed spec fn spec_addressing(&self) -> Addressing {
        self.addressing
    }

    /// The directory that holds the files.
    pub fn path(&self) -> (r: &str)
        ensures
            r@ == self.spec_path(),
    {
        self.path.as_str()
    }

    /// The addressing scheme.
    pub fn addressing(&self) -> (r: Addressing)
        ensures
            r == self.spec_addressing(),
    {
        self.addressing
    }

    /// The name of the file that `c` is written to.
    pub fn file_name_for_record(&self, c: &Contact) -> (r: String)
        ensures
            r@ == record_file_name(self.spec_addressing(), c@),
    {
        match self.addressing {
            Addressing::ContentHash => json_file_name(decimal(hash_fields(c))),
            Addressing::ById => json_file_name(c.id()),
            Addressing::SingleSlot => String::from_str("contact.json"),
        }
    }

    /// The name of the file that a fetch by `id` reads.
    pub fn file_name_for_id(&self, id: &str) -> (r: String)
        ensures
            r@ == id_file_name(self.spec_addressing(), id@),
    {
        match self.addressing {
            Addressing::ContentHash | Addressing::ById => json_file_name(String::from_str(id)),
            Addressing::SingleSlot => String::from_str("contact.json"),
        }
    }

    /// The id by which `c` is fetched once stored.
    pub fn record_key(&self, c: &Contact) -> (r: String)
        ensures
            r@ == record_key(self.spec_addressing(), c@),
    {
        match self.addressing {
            Addressing::ContentHash => decimal(hash_fields(c)),
            Addressing::ById | Addressing::SingleSlot => c.id(),
        }
    }
}

fn json_file_name(stem: String) -> (r: String)
    ensures
        r@ == json_name(stem@),
{
    let mut s = stem;
    s.append(".json");
    s
}

} // verus!
