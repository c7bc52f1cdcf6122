use contacts::memory::MemoryRepository;
use contacts::models::{Contact, ContactName};
use contacts::naming::decimal;
use contacts::repo::{Addressing, FileRepository, RepoError, Repository};
use contacts::usecases::Contacts;
use std::hash::{BuildHasher, Hash, Hasher};

fn contact(id: &str, first: &str, last: &str) -> Contact {
    Contact::new(id.to_string(), first.to_string(), last.to_string())
}

fn hashed() -> MemoryRepository {
    MemoryRepository::new(FileRepository::new("/tmp".to_string()))
}

fn slot() -> MemoryRepository {
    MemoryRepository::new(FileRepository::single_slot("/tmp".to_string()))
}

#[test]
fn decimal_writes_digits() {
    assert_eq!(decimal(0), "0");
    assert_eq!(decimal(7), "7");
    assert_eq!(decimal(10), "10");
    assert_eq!(decimal(1234567890), "1234567890");
    assert_eq!(decimal(u64::MAX), "18446744073709551615");
}

#[test]
fn new_repository_uses_content_hash() {
    let repo = FileRepository::new("/tmp".to_string());
    assert_eq!(repo.path(), "/tmp");
    assert_eq!(repo.addressing(), Addressing::ContentHash);
    let repo = FileRepository::single_slot("/data".to_string());
    assert_eq!(repo.path(), "/data");
    assert_eq!(repo.addressing(), Addressing::SingleSlot);
}

#[derive(Hash)]
struct Fields<'a> {
    id: &'a str,
    first_name: &'a str,
    last_name: &'a str,
}

#[test]
fn record_file_name_is_hash_of_fields() {
    let c = contact("1", "Ada", "Lovelace");
    let mut hasher = std::collections::hash_map::DefaultHasher::new();
    Fields { id: "1", first_name: "Ada", last_name: "Lovelace" }.hash(&mut hasher);
    let expected = hasher.finish();
    let repo = FileRepository::new("/tmp".to_string());
    assert_eq!(repo.file_name_for_record(&c), format!("{}.json", expected));
    assert_eq!(repo.record_key(&c), expected.to_string());
    let one_shot = std::hash::BuildHasherDefault::<std::collections::hash_map::DefaultHasher>::default()
        .hash_one(("1", "Ada", "Lovelace"));
    assert_eq!(one_shot, expected);
    assert_ne!(repo.file_name_for_record(&c), "1.json");
}

#[test]
fn file_name_for_id_appends_extension() {
    let repo = FileRepository::new("/tmp".to_string());
    assert_eq!(repo.file_name_for_id("42"), "42.json");
    assert_eq!(repo.file_name_for_id(""), ".json");
    let repo = FileRepository::single_slot("/tmp".to_string());
    assert_eq!(repo.file_name_for_id("42"), "contact.json");
    assert_eq!(repo.file_name_for_id("7"), "contact.json");
    assert_eq!(repo.file_name_for_record(&contact("9", "a", "b")), "contact.json");
    assert_eq!(repo.record_key(&contact("9", "a", "b")), "9");
}

#[test]
fn equal_records_share_a_file() {
    let repo = FileRepository::new("/tmp".to_string());
    let a = contact("1", "Ada", "Lovelace");
    let b = contact("1", "Ada", "Lovelace");
    assert_eq!(repo.file_name_for_record(&a), repo.file_name_for_record(&b));
}

#[test]
fn records_differing_in_any_field_get_different_files() {
    let repo = FileRepository::new("/tmp".to_string());
    let base = repo.file_name_for_record(&contact("1", "Ada", "Lovelace"));
    assert_ne!(base, repo.file_name_for_record(&contact("2", "Ada", "Lovelace")));
    assert_ne!(base, repo.file_name_for_record(&contact("1", "Ida", "Lovelace")));
    assert_ne!(base, repo.file_name_for_record(&contact("1", "Ada", "Byron")));
    assert_ne!(base, repo.file_name_for_record(&contact("1", "AdaL", "ovelace")));
}

#[test]
fn store_then_fetch_by_record_key() {
    let mut repo = hashed();
    let c = contact("1", "Ada", "Lovelace");
    let key = repo.layout().record_key(&c);
    let stored = Contacts::create(c.clone(), &mut repo).unwrap();
    assert_eq!(stored, c);
    assert_eq!(Contacts::get(&key, &repo).unwrap(), c);
}

#[test]
fn store_then_fetch_single_slot() {
    let mut repo = slot();
    let c = contact("1", "Ada", "Lovelace");
    repo.set(c.clone()).unwrap();
    assert_eq!(repo.get("1").unwrap(), c);
}

#[test]
fn storing_twice_fetches_the_same() {
    let mut repo = hashed();
    let c = contact("1", "Ada", "Lovelace");
    let key = repo.layout().record_key(&c);
    repo.store(c.clone());
    let once = repo.fetch(&key);
    repo.store(c.clone());
    let twice = repo.fetch(&key);
    assert_eq!(once, Some(c));
    assert_eq!(once, twice);
}

#[test]
fn missing_id_is_an_error() {
    let repo = hashed();
    assert_eq!(Contacts::get("1", &repo), Err(RepoError::NotFound));
    let repo = slot();
    assert_eq!(repo.get("anything"), Err(RepoError::NotFound));
    let mut repo = hashed();
    repo.store(contact("1", "Ada", "Lovelace"));
    assert_eq!(repo.get("1"), Err(RepoError::NotFound));
    assert_eq!(repo.fetch("1"), None);
}

#[test]
fn single_slot_keeps_the_latest() {
    let mut repo = slot();
    let a = contact("1", "Ada", "Lovelace");
    let b = contact("2", "Alan", "Turing");
    repo.store(a);
    repo.store(b.clone());
    assert_eq!(repo.fetch("1"), Some(b.clone()));
    assert_eq!(repo.fetch("2"), Some(b.clone()));
    assert_eq!(repo.fetch("x"), Some(b));
}

#[test]
fn content_hash_keeps_both_records() {
    let mut repo = hashed();
    let a = contact("1", "Ada", "Lovelace");
    let b = contact("2", "Alan", "Turing");
    let ka = repo.layout().record_key(&a);
    let kb = repo.layout().record_key(&b);
    repo.store(a.clone());
    repo.store(b.clone());
    assert_eq!(repo.fetch(&ka), Some(a));
    assert_eq!(repo.fetch(&kb), Some(b));
}

#[test]
fn create_then_get_example() {
    let mut repo = slot();
    let created = Contacts::create(contact("1", "Ada", "Lovelace"), &mut repo).unwrap();
    assert_eq!(
        created.name(),
        ContactName { first_name: "Ada".to_string(), last_name: "Lovelace".to_string() }
    );
    let fetched = Contacts::get("1", &repo).unwrap();
    assert_eq!(fetched.id(), "1");
    assert_eq!(fetched.first_name(), "Ada");
    assert_eq!(fetched.last_name(), "Lovelace");
}

#[test]
fn duplicate_copies_fields() {
    let c = contact("1", "Ada", "Lovelace");
    assert_eq!(c.duplicate(), c);
}

fn by_id() -> MemoryRepository {
    MemoryRepository::new(FileRepository::by_id("/tmp".to_string()))
}

#[test]
fn id_addressing_names_files_by_id() {
    let repo = FileRepository::by_id("/srv".to_string());
    assert_eq!(repo.addressing(), Addressing::ById);
    assert_eq!(repo.file_name_for_record(&contact("1", "Ada", "Lovelace")), "1.json");
    assert_eq!(repo.file_name_for_id("1"), "1.json");
    assert_eq!(repo.record_key(&contact("1", "Ada", "Lovelace")), "1");
}

#[test]
fn create_then_get_by_id_example() {
    let mut repo = by_id();
    let created = Contacts::create(contact("1", "Ada", "Lovelace"), &mut repo).unwrap();
    assert_eq!(
        created.name(),
        ContactName { first_name: "Ada".to_string(), last_name: "Lovelace".to_string() }
    );
    assert_eq!(Contacts::get("1", &repo).unwrap(), contact("1", "Ada", "Lovelace"));
    assert_eq!(Contacts::get("2", &repo), Err(RepoError::NotFound));
}

#[test]
fn id_addressing_replaces_only_same_id() {
    let mut repo = by_id();
    repo.store(contact("1", "Ada", "Lovelace"));
    repo.store(contact("2", "Alan", "Turing"));
    repo.store(contact("1", "Ada", "Byron"));
    assert_eq!(repo.fetch("1"), Some(contact("1", "Ada", "Byron")));
    assert_eq!(repo.fetch("2"), Some(contact("2", "Alan", "Turing")));
}

#[test]
fn create_twice_returns_the_record_both_times() {
    let mut repo = hashed();
    let c = contact("1", "Ada", "Lovelace");
    let key = repo.layout().record_key(&c);
    let first = Contacts::create(c.clone(), &mut repo).unwrap();
    let second = Contacts::create(c.clone(), &mut repo).unwrap();
    assert_eq!(first, second);
    assert_eq!(second, c);
    assert_eq!(Contacts::get(&key, &repo), Ok(c));
}
