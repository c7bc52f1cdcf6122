use vstd::prelude::*;

verus! {

/// One contact record: a caller-supplied id and two names.
#[derive(Debug, Clone, PartialEq, Eq, Hash)]
pub struct Contact {
    pub id: String,
    pub first_name: String,
    pub last_name: String,
}

/// The mathematical value of a `Contact`: its three fields as character sequences.
pub struct ContactView {
    pub id: Seq<char>,
    pub first_name: Seq<char>,
    pub last_name: Seq<char>,
}

impl View for Contact {
    type V = ContactView;

    open spec fn view(&self) -> ContactView {
        ContactView { id: self.id@, first_name: self.first_name@, last_name: self.last_name@ }
    }
}

/// The part of a contact that a create request answers with: both names, no id.
#[derive(Debug, Clone, PartialEq, Eq)]
pub struct ContactName {
    pub first_name: String,
    pub last_name: String,
}

impl Contact {
    /// Builds a record from its three fields.
    pub fn new(id: String, first_name: String, last_name: String) -> (r: Contact)
        ensures
            r.id@ == id@,
            r.first_name@ == first_name@,
            r.last_name@ == last_name@,
    {
        Contact { id, first_name, last_name }
    }

    /// A field-for-field copy of the record.
    pub fn duplicate(&self) -> (r: Contact)
        ensures
            r@ == self@,
    {
        Contact {
            id: self.id.clone(),
            first_name: self.first_name.clone(),
            last_name: self.last_name.clone(),
        }
    }

    /// The record's id.
    pub fn id(&self) -> (r: String)
        ensures
            r@ == self.id@,
    {
        self.id.clone()
    }

    /// The record's first name.
    pub fn first_name(&self) -> (r: String)
        ensures
            r@ == self.first_name@,
    {
        self.first_name.clone()
    }

    /// The record's last name.
    pub fn last_name(&self) -> (r: String)
        ensures
            r@ == self.last_name@,
    {
        self.last_name.clone()
    }

    /// Both names of the record, without its id.
    pub fn name(&self) -> (r: ContactName)
        ensures
            r.first_name@ == self.first_name@,
            r.last_name@ == self.last_name@,
    {
        ContactName { first_name: self.first_name.clone(), last_name: self.last_name.clone() }
    }
}

} // verus!
