//! Types for contact management.

use vstd::prelude::*;

verus! {

/// Filters for listing contacts.
#[derive(Clone, Debug)]
pub struct ListContactsParams {
    pub tag: Option<String>,
    pub search: Option<String>,
    pub email: Option<String>,
    pub phone: Option<String>,
    pub limit: Option<i32>,
    pub page: Option<i32>,
}

impl ListContactsParams {
    pub fn new() -> (p: Self)
        ensures
            p.tag is None,
            p.search is None,
            p.email is None,
            p.phone is None,
            p.limit is None,
            p.page is None,
    {
        ListContactsParams {
            tag: None,
            search: None,
            email: None,
            phone: None,
            limit: None,
            page: None,
        }
    }

    pub fn search(self, search: &str) -> (p: Self)
        ensures
            p.search matches Some(s) && s@ == search@,
            p.tag == self.tag,
            p.email == self.email,
            p.phone == self.phone,
            p.limit == self.limit,
            p.page == self.page,
    {
        ListContactsParams { search: Some(search.to_owned()), ..self }
    }

    pub fn limit(self, limit: i32) -> (p: Self)
        ensures
            p.limit == Some(limit),
            p.tag == self.tag,
            p.search == self.search,
            p.email == self.email,
            p.phone == self.phone,
            p.page == self.page,
    {
        ListContactsParams { limit: Some(limit), ..self }
    }
}

/// Merges several duplicate contacts into a surviving primary.
#[derive(Clone, Debug)]
pub struct MergeContactsInput {
    pub primary_contact_id: String,
    pub contact_ids_to_merge: Vec<String>,
}

} // verus!
