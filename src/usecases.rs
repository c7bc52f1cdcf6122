use vstd::prelude::*;
use crate::models::Contact;
use crate::repo::{RepoError, Repository, fetched, stored};

verus! {

/// The use cases on contacts: create one, fetch one.
pub struct Contacts {}

impl Contacts {
    /// Stores `contact` in `repo` and hands back the stored record, or the
    /// repository's error.
    pub fn create<R: Repository>(contact: Contact, repo: &mut R) -> (r: Result<Contact, RepoError>)
        ensures
            final(repo).addressing_of() == old(repo).addressing_of(),
            final(repo).infallible() == old(repo).infallible(),
            old(repo).infallible() ==> r is Ok,
            r matches Ok(c) ==> c@ == contact@ && final(repo).files() == stored(
                old(repo).files(),
                old(repo).addressing_of(),
                contact@,
            ),
    {
        repo.set(contact)
    }

    /// Fetches the record that `id` maps to in `repo`.
    pub fn get<R: Repository>(id: &str, repo: &R) -> (r: Result<Contact, RepoError>)
        ensures
            r matches Ok(c) ==> fetched(repo.files(), repo.addressing_of(), id@) == Some(c@),
            fetched(repo.files(), repo.addressing_of(), id@) is None ==> r matches Err(
                RepoError::NotFound,
            ),
            repo.infallible() && fetched(repo.files(), repo.addressing_of(), id@) is Some ==> r is Ok,
    {
        repo.get(id)
    }
}

} // verus!
