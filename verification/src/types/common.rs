//! Pagination parameters and the paginated response wrapper shared by every
//! list endpoint.

use vstd::prelude::*;

verus! {

/// Query parameters for paginated listings.
#[derive(Clone, Debug)]
pub struct PaginationParams {
    pub page: Option<i32>,
    pub limit: Option<i32>,
    pub cursor: Option<String>,
    pub sort_by: Option<String>,
    pub sort_order: Option<String>,
}

impl PaginationParams {
    pub fn new() -> (p: Self)
        ensures
            p.page is None,
            p.limit is None,
            p.cursor is None,
            p.sort_by is None,
            p.sort_order is None,
    {
        PaginationParams { page: None, limit: None, cursor: None, sort_by: None, sort_order: None }
    }

    pub fn page(self, page: i32) -> (p: Self)
        ensures
            p.page == Some(page),
            p.limit == self.limit,
            p.cursor == self.cursor,
            p.sort_by == self.sort_by,
            p.sort_order == self.sort_order,
    {
        PaginationParams { page: Some(page), ..self }
    }

    pub fn limit(self, limit: i32) -> (p: Self)
        ensures
            p.limit == Some(limit),
            p.page == self.page,
            p.cursor == self.cursor,
            p.sort_by == self.sort_by,
            p.sort_order == self.sort_order,
    {
        PaginationParams { limit: Some(limit), ..self }
    }

    pub fn cursor(self, cursor: &str) -> (p: Self)
        ensures
            p.cursor matches Some(c) && c@ == cursor@,
            p.page == self.page,
            p.limit == self.limit,
            p.sort_by == self.sort_by,
            p.sort_order == self.sort_order,
    {
        PaginationParams { cursor: Some(cursor.to_owned()), ..self }
    }
}

/// One page of results together with its paging metadata.
#[derive(Clone, Debug)]
pub struct PaginatedResponse<T> {
    pub data: Vec<T>,
    pub pagination: PaginationMeta,
}

#[derive(Clone, Debug)]
pub struct PaginationMeta {
    pub total: i32,
    pub page: i32,
    pub limit: i32,
    pub total_pages: i32,
    pub has_more: bool,
    pub next_cursor: Option<String>,
    pub prev_cursor: Option<String>,
}

} // verus!
