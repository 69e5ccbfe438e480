//! Cached lookups: pages of roles and users, and single rows found by id,
//! e-mail or code. Each lookup first asks the cache under its key; on a
//! miss it asks the repository and caches the answer for five minutes.

use vstd::prelude::*;
use crate::errors::{RepositoryError, ServiceError};
use crate::model::{
    ApiResponse, RoleRecord, UserRecord, UserResponse, UserResponseDeleteAt, UserResponseWithPassword,
    custom_failure, repo_failure, shows_trashed_user, shows_user, shows_user_with_password, success_reply,
};
use crate::pagination::{effective_page, effective_page_size, page_count, page_count_fits, total_pages};
use crate::responses::{RoleResponse, RoleResponseDeleteAt, shows_role, shows_trashed_role};
use crate::text::{copy_str, i64_text, int_decimal, join2};

verus! {

/// Minutes a lookup's answer stays in the cache.
pub const LOOKUP_CACHE_MINUTES: i64 = 5;

/// Where a page sits among the pages of a result set.
#[derive(Debug, Clone, Copy)]
pub struct Pagination {
    pub page: i32,
    pub page_size: i32,
    pub total_items: i64,
    pub total_pages: i32,
}

/// A page of results with its place among the pages.
#[derive(Debug, Clone)]
pub struct ApiResponsePagination<T> {
    pub status: String,
    pub message: String,
    pub data: T,
    pub pagination: Pagination,
}

/// Keep the answer in the cache under this key for these minutes.
#[derive(Debug, Clone)]
pub struct CacheReply {
    pub key: String,
    pub ttl_minutes: i64,
}

/// A page lookup in progress.
#[derive(Debug, Clone)]
pub struct PageLookup {
    pub cache_key: String,
    pub page: i32,
    pub page_size: i32,
    pub message: String,
    pub request: PageRequest,
}

/// What the repository is asked for a page: the page, the page size and
/// the search text as requested.
#[derive(Debug, Clone)]
pub struct PageRequest {
    pub page: i32,
    pub page_size: i32,
    pub search: String,
}

/// Whether a repository request asks for this page, page size and search.
pub open spec fn asks_for(r: PageRequest, page: i32, page_size: i32, search: Seq<char>) -> bool {
    r.page == page && r.page_size == page_size && r.search@ == search
}

impl PageRequest {
    /// A copy of the request.
    pub fn copy(&self) -> (r: PageRequest)
        ensures
            r == *self,
    {
        PageRequest { page: self.page, page_size: self.page_size, search: self.search.clone() }
    }
}

/// What the caller does next in a page lookup.
#[derive(Debug)]
pub enum PageStep<T> {
    /// Ask the repository for the rows and their count by the request,
    /// then call the lookup's method for that kind of row.
    Query { lookup: PageLookup, request: PageRequest },
    /// Cache the answer when asked to, and answer.
    Finish { cache: Option<CacheReply>, reply: Result<ApiResponsePagination<T>, ServiceError> },
}

/// The cache key of a page: the lookup's name, then the page, the page
/// size and the search text.
pub open spec fn page_key(name: Seq<char>, page: int, page_size: int, search: Seq<char>) -> Seq<char> {
    name + ":page:"@ + int_decimal(page) + ":size:"@ + int_decimal(page_size) + ":search:"@ + search
}

/// The page a service answers with: the requested one, or the first.
pub open spec fn normal_page(page: i32) -> i32 {
    if page > 0 { page } else { 1 }
}

/// The page size a service answers with: the requested one, or ten.
pub open spec fn normal_page_size(page_size: i32) -> i32 {
    if page_size > 0 { page_size } else { 10 }
}

/// Whether a page answer is a success with the lookup's message and page,
/// these totals, cached under the lookup's key.
pub open spec fn page_answered<T>(
    l: PageLookup,
    c: CacheReply,
    r: ApiResponsePagination<T>,
    total_items: int,
    total_pages: int,
) -> bool {
    &&& c.key@ == l.cache_key@
    &&& c.ttl_minutes == LOOKUP_CACHE_MINUTES
    &&& r.status@ == "success"@
    &&& r.message@ == l.message@
    &&& r.pagination.page == l.page
    &&& r.pagination.page_size == l.page_size
    &&& r.pagination.total_items == total_items
    &&& r.pagination.total_pages == total_pages
}

/// The cache key of a page lookup.
fn make_page_key(name: &str, page: i32, page_size: i32, search: &str) -> (k: String)
    ensures
        k@ == page_key(name@, page as int, page_size as int, search@),
{
    let mut k = join2(name, ":page:");
    let p = i64_text(page as i64);
    k.append(p.as_str());
    k.append(":size:");
    let s = i64_text(page_size as i64);
    k.append(s.as_str());
    k.append(":search:");
    k.append(search);
    k
}

/// The role answers of role rows, in order.
pub fn roles_to_responses(rows: &Vec<RoleRecord>) -> (out: Vec<RoleResponse>)
    ensures
        out.len() == rows.len(),
        forall|i: int| 0 <= i < rows.len() ==> shows_role(#[trigger] out[i], rows[i]),
{
    let mut out: Vec<RoleResponse> = Vec::new();
    let mut i: usize = 0;
    while i < rows.len()
        invariant
            i <= rows.len(),
            out.len() == i,
            forall|j: int| 0 <= j < i ==> shows_role(#[trigger] out[j], rows[j]),
        decreases rows.len() - i,
    {
        out.push(RoleResponse::from_record(&rows[i]));
        i = i + 1;
    }
    out
}

/// The trashed-role answers of role rows, in order.
pub fn trashed_roles_to_responses(rows: &Vec<RoleRecord>) -> (out: Vec<RoleResponseDeleteAt>)
    ensures
        out.len() == rows.len(),
        forall|i: int| 0 <= i < rows.len() ==> shows_trashed_role(#[trigger] out[i], rows[i]),
{
    let mut out: Vec<RoleResponseDeleteAt> = Vec::new();
    let mut i: usize = 0;
    while i < rows.len()
        invariant
            i <= rows.len(),
            out.len() == i,
            forall|j: int| 0 <= j < i ==> shows_trashed_role(#[trigger] out[j], rows[j]),
        decreases rows.len() - i,
    {
        out.push(RoleResponseDeleteAt::from_record(&rows[i]));
        i = i + 1;
    }
    out
}

/// The user answers of user rows, in order.
pub fn users_to_responses(rows: &Vec<UserRecord>) -> (out: Vec<UserResponse>)
    ensures
        out.len() == rows.len(),
        forall|i: int| 0 <= i < rows.len() ==> shows_user(#[trigger] out[i], rows[i]),
{
    let mut out: Vec<UserResponse> = Vec::new();
    let mut i: usize = 0;
    while i < rows.len()
        invariant
            i <= rows.len(),
            out.len() == i,
            forall|j: int| 0 <= j < i ==> shows_user(#[trigger] out[j], rows[j]),
        decreases rows.len() - i,
    {
        out.push(UserResponse::from_record(&rows[i]));
        i = i + 1;
    }
    out
}

/// The trashed-user answers of user rows, in order.
pub fn trashed_users_to_responses(rows: &Vec<UserRecord>) -> (out: Vec<UserResponseDeleteAt>)
    ensures
        out.len() == rows.len(),
        forall|i: int| 0 <= i < rows.len() ==> shows_trashed_user(#[trigger] out[i], rows[i]),
{
    let mut out: Vec<UserResponseDeleteAt> = Vec::new();
    let mut i: usize = 0;
    while i < rows.len()
        invariant
            i <= rows.len(),
            out.len() == i,
            forall|j: int| 0 <= j < i ==> shows_trashed_user(#[trigger] out[j], rows[j]),
        decreases rows.len() - i,
    {
        out.push(UserResponseDeleteAt::from_record(&rows[i]));
        i = i + 1;
    }
    out
}

impl PageLookup {
    /// A page of roles: pages and page sizes below one read as the first
    /// page and ten rows, in the key and in the answer.
    pub fn for_roles(name: &str, message: &str, page: i32, page_size: i32, search: &str) -> (l: PageLookup)
        ensures
            l.page == normal_page(page),
            l.page_size == normal_page_size(page_size),
            l.cache_key@ == page_key(name@, normal_page(page) as int, normal_page_size(page_size) as int, search@),
            l.message@ == message@,
            asks_for(l.request, page, page_size, search@),
    {
        let p = effective_page(page);
        let ps = effective_page_size(page_size);
        let request = PageRequest { page, page_size, search: copy_str(search) };
        PageLookup {
            cache_key: make_page_key(name, p, ps, search),
            page: p,
            page_size: ps,
            message: copy_str(message),
            request,
        }
    }

    /// A page of users: the key reads pages and page sizes below one as the
    /// first page and ten rows, the answer carries them as requested.
    pub fn for_users(name: &str, message: &str, page: i32, page_size: i32, search: &str) -> (l: PageLookup)
        ensures
            l.page == page,
            l.page_size == page_size,
            l.cache_key@ == page_key(name@, normal_page(page) as int, normal_page_size(page_size) as int, search@),
            l.message@ == message@,
            asks_for(l.request, page, page_size, search@),
    {
        let p = effective_page(page);
        let ps = effective_page_size(page_size);
        let request = PageRequest { page, page_size, search: copy_str(search) };
        PageLookup { cache_key: make_page_key(name, p, ps, search), page, page_size, message: copy_str(message), request }
    }

    /// The page of all roles.
    pub fn roles_all(page: i32, page_size: i32, search: &str) -> (l: PageLookup)
        ensures
            l.page == normal_page(page),
            l.page_size == normal_page_size(page_size),
            l.cache_key@ == page_key("role:find_all"@, l.page as int, l.page_size as int, search@),
            l.message@ == "Roles retrieved successfully"@,
            asks_for(l.request, page, page_size, search@),
    {
        PageLookup::for_roles("role:find_all", "Roles retrieved successfully", page, page_size, search)
    }

    /// The page of active roles.
    pub fn roles_active(page: i32, page_size: i32, search: &str) -> (l: PageLookup)
        ensures
            l.page == normal_page(page),
            l.page_size == normal_page_size(page_size),
            l.cache_key@ == page_key("role:find_active"@, l.page as int, l.page_size as int, search@),
            l.message@ == "Active roles retrieved successfully"@,
            asks_for(l.request, page, page_size, search@),
    {
        PageLookup::for_roles("role:find_active", "Active roles retrieved successfully", page, page_size, search)
    }

    /// The page of trashed roles.
    pub fn roles_trashed(page: i32, page_size: i32, search: &str) -> (l: PageLookup)
        ensures
            l.page == normal_page(page),
            l.page_size == normal_page_size(page_size),
            l.cache_key@ == page_key("role:find_trashed"@, l.page as int, l.page_size as int, search@),
            l.message@ == "Trashed roles retrieved successfully"@,
            asks_for(l.request, page, page_size, search@),
    {
        PageLookup::for_roles("role:find_trashed", "Trashed roles retrieved successfully", page, page_size, search)
    }

    /// The page of all users.
    pub fn users_all(page: i32, page_size: i32, search: &str) -> (l: PageLookup)
        ensures
            l.page == page,
            l.page_size == page_size,
            l.cache_key@ == page_key(
                "user:find_all"@,
                normal_page(page) as int,
                normal_page_size(page_size) as int,
                search@,
            ),
            l.message@ == "Users retrieved successfully"@,
            asks_for(l.request, page, page_size, search@),
    {
        PageLookup::for_users("user:find_all", "Users retrieved successfully", page, page_size, search)
    }

    /// The page of active users.
    pub fn users_active(page: i32, page_size: i32, search: &str) -> (l: PageLookup)
        ensures
            l.page == page,
            l.page_size == page_size,
            l.cache_key@ == page_key(
                "user:find_active"@,
                normal_page(page) as int,
                normal_page_size(page_size) as int,
                search@,
            ),
            l.message@ == "Active users retrieved successfully"@,
            asks_for(l.request, page, page_size, search@),
    {
        PageLookup::for_users("user:find_active", "Active users retrieved successfully", page, page_size, search)
    }

    /// The page of trashed users.
    pub fn users_trashed(page: i32, page_size: i32, search: &str) -> (l: PageLookup)
        ensures
            l.page == page,
            l.page_size == page_size,
            l.cache_key@ == page_key(
                "user:find_trashed"@,
                normal_page(page) as int,
                normal_page_size(page_size) as int,
                search@,
            ),
            l.message@ == "Trashed users retrieved successfully"@,
            asks_for(l.request, page, page_size, search@),
    {
        PageLookup::for_users("user:find_trashed", "Trashed users retrieved successfully", page, page_size, search)
    }

    /// The cache answered: a cached page is answered as it is; else the
    /// repository is asked.
    pub fn on_cached<T>(self, cached: Option<ApiResponsePagination<T>>) -> (s: PageStep<T>)
        ensures
            match cached {
                Some(c) => s matches PageStep::Finish { cache: None, reply: Ok(r) } && r == c,
                None => s matches PageStep::Query { lookup, request } && lookup == self && request
                    == self.request,
            },
    {
        match cached {
            Some(c) => PageStep::Finish { cache: None, reply: Ok(c) },
            None => {
                let request = self.request.copy();
                PageStep::Query { lookup: self, request }
            },
        }
    }

    /// The answer with these rows and totals, to cache under the key.
    fn answer<T>(self, data: T, total_items: i64, pages: i32) -> (s: PageStep<T>)
        ensures
            s matches PageStep::Finish { cache: Some(c), reply: Ok(r) } && page_answered(
                self,
                c,
                r,
                total_items as int,
                pages as int,
            ) && r.data == data,
    {
        let pagination = Pagination {
            page: self.page,
            page_size: self.page_size,
            total_items,
            total_pages: pages,
        };
        let reply = ApiResponsePagination {
            status: copy_str("success"),
            message: self.message,
            data,
            pagination,
        };
        PageStep::Finish {
            cache: Some(CacheReply { key: self.cache_key, ttl_minutes: LOOKUP_CACHE_MINUTES }),
            reply: Ok(reply),
        }
    }

    /// The repository answered with role rows and their count: the page
    /// shows the rows, the count, and the number of pages it makes.
    pub fn on_roles(self, rows: Result<(Vec<RoleRecord>, i64), RepositoryError>) -> (s: PageStep<Vec<RoleResponse>>)
        requires
            rows matches Ok((_, t)) ==> page_count_fits(t, self.page_size),
        ensures
            match rows {
                Err(e) => s matches PageStep::Finish { cache: None, reply } && repo_failure(reply, e),
                Ok((rs, t)) => s matches PageStep::Finish { cache: Some(c), reply: Ok(r) } && page_answered(
                    self,
                    c,
                    r,
                    t as int,
                    page_count(t as int, self.page_size as int) as i32 as int,
                ) && r.data.len() == rs.len() && forall|i: int|
                    0 <= i < rs.len() ==> shows_role(#[trigger] r.data[i], rs[i]),
            },
    {
        match rows {
            Err(e) => PageStep::Finish { cache: None, reply: Err(ServiceError::Repo(e)) },
            Ok((rs, t)) => {
                let data = roles_to_responses(&rs);
                let n = total_pages(t, self.page_size);
                self.answer(data, t, n as i32)
            },
        }
    }

    /// The repository answered with role rows to show with their deletion
    /// dates, and their count.
    pub fn on_trashed_roles(self, rows: Result<(Vec<RoleRecord>, i64), RepositoryError>) -> (s: PageStep<Vec<RoleResponseDeleteAt>>)
        requires
            rows matches Ok((_, t)) ==> page_count_fits(t, self.page_size),
        ensures
            match rows {
                Err(e) => s matches PageStep::Finish { cache: None, reply } && repo_failure(reply, e),
                Ok((rs, t)) => s matches PageStep::Finish { cache: Some(c), reply: Ok(r) } && page_answered(
                    self,
                    c,
                    r,
                    t as int,
                    page_count(t as int, self.page_size as int) as i32 as int,
                ) && r.data.len() == rs.len() && forall|i: int|
                    0 <= i < rs.len() ==> shows_trashed_role(#[trigger] r.data[i], rs[i]),
            },
    {
        match rows {
            Err(e) => PageStep::Finish { cache: None, reply: Err(ServiceError::Repo(e)) },
            Ok((rs, t)) => {
                let data = trashed_roles_to_responses(&rs);
                let n = total_pages(t, self.page_size);
                self.answer(data, t, n as i32)
            },
        }
    }

    /// The repository answered with user rows and their count: the page
    /// shows the rows, the count narrowed to 32 bits, and the number of
    /// pages it makes.
    pub fn on_users(self, rows: Result<(Vec<UserRecord>, i64), RepositoryError>) -> (s: PageStep<Vec<UserResponse>>)
        requires
            rows matches Ok((_, t)) ==> page_count_fits(t, self.page_size),
        ensures
            match rows {
                Err(e) => s matches PageStep::Finish { cache: None, reply } && repo_failure(reply, e),
                Ok((rs, t)) => s matches PageStep::Finish { cache: Some(c), reply: Ok(r) } && page_answered(
                    self,
                    c,
                    r,
                    t as i32 as int,
                    page_count(t as int, self.page_size as int) as i32 as int,
                ) && r.data.len() == rs.len() && forall|i: int|
                    0 <= i < rs.len() ==> shows_user(#[trigger] r.data[i], rs[i]),
            },
    {
        match rows {
            Err(e) => PageStep::Finish { cache: None, reply: Err(ServiceError::Repo(e)) },
            Ok((rs, t)) => {
                let data = users_to_responses(&rs);
                let n = total_pages(t, self.page_size);
                let items = t as i32;
                self.answer(data, items as i64, n as i32)
            },
        }
    }

    /// The repository answered with user rows to show with their deletion
    /// dates, and their count narrowed to 32 bits.
    pub fn on_trashed_users(self, rows: Result<(Vec<UserRecord>, i64), RepositoryError>) -> (s: PageStep<Vec<UserResponseDeleteAt>>)
        requires
            rows matches Ok((_, t)) ==> page_count_fits(t, self.page_size),
        ensures
            match rows {
                Err(e) => s matches PageStep::Finish { cache: None, reply } && repo_failure(reply, e),
                Ok((rs, t)) => s matches PageStep::Finish { cache: Some(c), reply: Ok(r) } && page_answered(
                    self,
                    c,
                    r,
                    t as i32 as int,
                    page_count(t as int, self.page_size as int) as i32 as int,
                ) && r.data.len() == rs.len() && forall|i: int|
                    0 <= i < rs.len() ==> shows_trashed_user(#[trigger] r.data[i], rs[i]),
            },
    {
        match rows {
            Err(e) => PageStep::Finish { cache: None, reply: Err(ServiceError::Repo(e)) },
            Ok((rs, t)) => {
                let data = trashed_users_to_responses(&rs);
                let n = total_pages(t, self.page_size);
                let items = t as i32;
                self.answer(data, items as i64, n as i32)
            },
        }
    }
}

/// A lookup of a single row in progress: its cache key, the refusal of a
/// missing row, and the message of a found one.
#[derive(Debug, Clone)]
pub struct ItemLookup {
    pub cache_key: String,
    pub not_found: String,
    pub message: String,
    pub request: ItemRequest,
}

/// What the repository is asked for a single row.
#[derive(Debug, Clone)]
pub enum ItemRequest {
    /// The row with this id.
    Id(i32),
    /// The row with this e-mail address.
    Email(String),
    /// The row with this verification code.
    Code(String),
}

impl ItemRequest {
    /// A copy of the request.
    pub fn copy(&self) -> (r: ItemRequest)
        ensures
            r == *self,
    {
        match self {
            ItemRequest::Id(n) => ItemRequest::Id(*n),
            ItemRequest::Email(e) => ItemRequest::Email(e.clone()),
            ItemRequest::Code(c) => ItemRequest::Code(c.clone()),
        }
    }
}

/// What the caller does next in a lookup of a single row.
#[derive(Debug)]
pub enum ItemStep<T> {
    /// Ask the repository for the row by the request, then call the
    /// lookup's method for that kind of row.
    Query { lookup: ItemLookup, request: ItemRequest },
    /// Cache the answer when asked to, and answer.
    Finish { cache: Option<CacheReply>, reply: Result<ApiResponse<T>, ServiceError> },
}

/// Whether a step answers a found row with the lookup's message and this
/// data, cached under the lookup's key.
pub open spec fn item_answered<T>(l: ItemLookup, s: ItemStep<T>, data: T) -> bool {
    &&& s matches ItemStep::Finish { cache: Some(c), reply: Ok(r) }
    &&& s->Finish_cache->0.key@ == l.cache_key@
    &&& s->Finish_cache->0.ttl_minutes == LOOKUP_CACHE_MINUTES
    &&& s->Finish_reply->Ok_0.status@ == "success"@
    &&& s->Finish_reply->Ok_0.message@ == l.message@
    &&& s->Finish_reply->Ok_0.data == data
}

/// Whether a step refuses the lookup, caching nothing: with the
/// repository's error, or with the lookup's refusal when no row was found.
pub open spec fn item_refused<T>(l: ItemLookup, s: ItemStep<T>, found_error: Option<RepositoryError>) -> bool {
    s matches ItemStep::Finish { cache: None, reply } && match found_error {
        Some(e) => repo_failure(reply, e),
        None => custom_failure(reply, l.not_found@),
    }
}

/// The found answer of a lookup: its data, when the step answers one.
pub open spec fn found_data<T>(s: ItemStep<T>) -> T {
    s->Finish_reply->Ok_0.data
}

impl ItemLookup {
    /// A lookup under a key, with its refusal and its message.
    fn new(cache_key: String, not_found: &str, message: &str, request: ItemRequest) -> (l: ItemLookup)
        ensures
            l.cache_key@ == cache_key@,
            l.not_found@ == not_found@,
            l.message@ == message@,
            l.request == request,
    {
        ItemLookup { cache_key, not_found: copy_str(not_found), message: copy_str(message), request }
    }

    /// The lookup of a role by id.
    pub fn role_by_id(id: i32) -> (l: ItemLookup)
        ensures
            l.cache_key@ == "role:find_by_id:id:"@ + int_decimal(id as int),
            l.not_found@ == "Role not found"@,
            l.message@ == "Role retrieved successfully"@,
            l.request == ItemRequest::Id(id),
    {
        let n = i64_text(id as i64);
        ItemLookup::new(
            join2("role:find_by_id:id:", n.as_str()),
            "Role not found",
            "Role retrieved successfully",
            ItemRequest::Id(id),
        )
    }

    /// The lookup of a user by id.
    pub fn user_by_id(id: i32) -> (l: ItemLookup)
        ensures
            l.cache_key@ == "user:find_by_id:id:"@ + int_decimal(id as int),
            l.not_found@ == "Failed to find user by ID"@,
            l.message@ == "User retrieved successfully"@,
            l.request == ItemRequest::Id(id),
    {
        let n = i64_text(id as i64);
        ItemLookup::new(
            join2("user:find_by_id:id:", n.as_str()),
            "Failed to find user by ID",
            "User retrieved successfully",
            ItemRequest::Id(id),
        )
    }

    /// The lookup of a user by e-mail.
    pub fn user_by_email(email: &str) -> (l: ItemLookup)
        ensures
            l.cache_key@ == "user:find_by_email:"@ + email@,
            l.not_found@ == "User not found"@,
            l.message@ == "User retrieved successfully"@,
            l.request matches ItemRequest::Email(e) && e@ == email@,
    {
        ItemLookup::new(
            join2("user:find_by_email:", email),
            "User not found",
            "User retrieved successfully",
            ItemRequest::Email(copy_str(email)),
        )
    }

    /// The lookup of a verified user, with its password hash, by e-mail.
    pub fn user_by_email_and_verify(email: &str) -> (l: ItemLookup)
        ensures
            l.cache_key@ == "user:find_by_email_and_verify:"@ + email@,
            l.not_found@ == "User not found or invalid"@,
            l.message@ == "User verified & retrieved successfully"@,
            l.request matches ItemRequest::Email(e) && e@ == email@,
    {
        ItemLookup::new(
            join2("user:find_by_email_and_verify:", email),
            "User not found or invalid",
            "User verified & retrieved successfully",
            ItemRequest::Email(copy_str(email)),
        )
    }

    /// The lookup of a user by verification code.
    pub fn user_by_verification_code(code: &str) -> (l: ItemLookup)
        ensures
            l.cache_key@ == "user:find_by_verification_code:"@ + code@,
            l.not_found@ == "Invalid verification code"@,
            l.message@ == "User retrieved successfully"@,
            l.request matches ItemRequest::Code(c) && c@ == code@,
    {
        ItemLookup::new(
            join2("user:find_by_verification_code:", code),
            "Invalid verification code",
            "User retrieved successfully",
            ItemRequest::Code(copy_str(code)),
        )
    }

    /// The cache answered: a cached answer is answered as it is; else the
    /// repository is asked.
    pub fn on_cached<T>(self, cached: Option<ApiResponse<T>>) -> (s: ItemStep<T>)
        ensures
            match cached {
                Some(c) => s matches ItemStep::Finish { cache: None, reply: Ok(r) } && r == c,
                None => s matches ItemStep::Query { lookup, request } && lookup == self && request
                    == self.request,
            },
    {
        match cached {
            Some(c) => ItemStep::Finish { cache: None, reply: Ok(c) },
            None => {
                let request = self.request.copy();
                ItemStep::Query { lookup: self, request }
            },
        }
    }

    /// The answer for a found row, to cache under the key.
    fn answer<T>(self, data: T) -> (s: ItemStep<T>)
        ensures
            item_answered(self, s, data),
    {
        let reply = success_reply(self.message.as_str(), data);
        ItemStep::Finish { cache: Some(CacheReply { key: self.cache_key, ttl_minutes: LOOKUP_CACHE_MINUTES }), reply: Ok(reply) }
    }

    /// The refusal of a missing row.
    fn refuse<T>(self) -> (s: ItemStep<T>)
        ensures
            item_refused(self, s, None),
    {
        ItemStep::Finish { cache: None, reply: Err(ServiceError::Custom(self.not_found)) }
    }

    /// The repository answered a role lookup.
    pub fn on_role(self, found: Result<Option<RoleRecord>, RepositoryError>) -> (s: ItemStep<RoleResponse>)
        ensures
            match found {
                Err(e) => item_refused(self, s, Some(e)),
                Ok(None) => item_refused(self, s, None),
                Ok(Some(row)) => item_answered(self, s, found_data(s)) && shows_role(found_data(s), row),
            },
    {
        match found {
            Err(e) => ItemStep::Finish { cache: None, reply: Err(ServiceError::Repo(e)) },
            Ok(None) => self.refuse(),
            Ok(Some(row)) => self.answer(RoleResponse::from_record(&row)),
        }
    }

    /// The repository answered a user lookup.
    pub fn on_user(self, found: Result<Option<UserRecord>, RepositoryError>) -> (s: ItemStep<UserResponse>)
        ensures
            match found {
                Err(e) => item_refused(self, s, Some(e)),
                Ok(None) => item_refused(self, s, None),
                Ok(Some(row)) => item_answered(self, s, found_data(s)) && shows_user(found_data(s), row),
            },
    {
        match found {
            Err(e) => ItemStep::Finish { cache: None, reply: Err(ServiceError::Repo(e)) },
            Ok(None) => self.refuse(),
            Ok(Some(row)) => self.answer(UserResponse::from_record(&row)),
        }
    }

    /// The repository answered a lookup of a user with its password hash.
    pub fn on_user_with_password(self, found: Result<Option<UserRecord>, RepositoryError>) -> (s: ItemStep<UserResponseWithPassword>)
        ensures
            match found {
                Err(e) => item_refused(self, s, Some(e)),
                Ok(None) => item_refused(self, s, None),
                Ok(Some(row)) => item_answered(self, s, found_data(s)) && shows_user_with_password(
                    found_data(s),
                    row,
                ),
            },
    {
        match found {
            Err(e) => ItemStep::Finish { cache: None, reply: Err(ServiceError::Repo(e)) },
            Ok(None) => self.refuse(),
            Ok(Some(row)) => self.answer(UserResponseWithPassword::from_record(&row)),
        }
    }
}

/// The answer to a lookup of the roles of a user: the roles in the order
/// the repository gave them, or the repository's error.
pub fn user_roles_reply(outcome: Result<Vec<RoleRecord>, RepositoryError>) -> (r: Result<ApiResponse<Vec<RoleResponse>>, ServiceError>)
    ensures
        match outcome {
            Err(e) => repo_failure(r, e),
            Ok(rows) => r matches Ok(a) && a.status@ == "success"@ && a.message@
                == "User roles retrieved successfully"@ && a.data.len() == rows.len() && forall|i: int|
                0 <= i < rows.len() ==> shows_role(#[trigger] a.data[i], rows[i]),
        },
{
    match outcome {
        Err(e) => Err(ServiceError::Repo(e)),
        Ok(rows) => Ok(success_reply("User roles retrieved successfully", roles_to_responses(&rows))),
    }
}

} // verus!
