//! Answers the user service receives from the role service, and how they
//! are read.

use vstd::prelude::*;
use crate::datetime::{parse_datetime, rfc3339_in_utc};
use crate::model::{RoleRecord, copy_opt_text};

verus! {

/// A role as the role service sends it over gRPC: dates as texts, empty
/// when absent.
#[derive(Debug, Clone)]
pub struct RoleResponseProto {
    pub id: i32,
    pub name: String,
    pub created_at: String,
    pub updated_at: String,
}

/// A role as the user service works with it: dates in UTC RFC 3339, or
/// none.
#[derive(Debug, Clone)]
pub struct RoleResponse {
    pub id: i32,
    pub name: String,
    pub created_at: Option<String>,
    pub updated_at: Option<String>,
}

/// A user-role link as the role service sends it over gRPC.
#[derive(Debug, Clone, Copy)]
pub struct UserRoleResponseProto {
    pub userid: i32,
    pub roleid: i32,
}

/// A user-role link.
#[derive(Debug, Clone, Copy)]
pub struct UserRoleResponse {
    pub user_id: i32,
    pub role_id: i32,
}

/// How a date text received from another service is read: none when
/// empty or not RFC 3339, else the same instant written in UTC.
pub open spec fn received_date(text: Seq<char>, read: Option<String>) -> bool {
    if text.len() == 0 {
        read is None
    } else {
        match read {
            Some(s) => rfc3339_in_utc(text) == Some(s@),
            None => rfc3339_in_utc(text) is None,
        }
    }
}

impl RoleResponse {
    /// A role received from the role service, with its dates read.
    pub fn from_proto(value: RoleResponseProto) -> (r: RoleResponse)
        ensures
            r.id == value.id,
            r.name@ == value.name@,
            received_date(value.created_at@, r.created_at),
            received_date(value.updated_at@, r.updated_at),
    {
        let created_at = parse_datetime(value.created_at.as_str());
        let updated_at = parse_datetime(value.updated_at.as_str());
        RoleResponse { id: value.id, name: value.name, created_at, updated_at }
    }

    /// A role as sent over gRPC: absent dates become empty texts.
    pub fn into_proto(self) -> (p: RoleResponseProto)
        ensures
            p.id == self.id,
            p.name@ == self.name@,
            p.created_at@ == (match self.created_at {
                Some(s) => s@,
                None => Seq::<char>::empty(),
            }),
            p.updated_at@ == (match self.updated_at {
                Some(s) => s@,
                None => Seq::<char>::empty(),
            }),
    {
        let created_at = match self.created_at {
            Some(s) => s,
            None => String::new(),
        };
        let updated_at = match self.updated_at {
            Some(s) => s,
            None => String::new(),
        };
        RoleResponseProto { id: self.id, name: self.name, created_at, updated_at }
    }
}

impl UserRoleResponse {
    /// A user-role link received from the role service.
    pub fn from_proto(value: UserRoleResponseProto) -> (r: UserRoleResponse)
        ensures
            r.user_id == value.userid,
            r.role_id == value.roleid,
    {
        UserRoleResponse { user_id: value.userid, role_id: value.roleid }
    }
}

/// A role that goes out over gRPC and is read back keeps its identity and
/// its name, and an absent date stays absent.
pub proof fn lemma_role_round_trip(r: RoleResponse, p: RoleResponseProto, back: RoleResponse)
    requires
        p.id == r.id,
        p.name@ == r.name@,
        p.created_at@ == (match r.created_at {
            Some(s) => s@,
            None => Seq::<char>::empty(),
        }),
        back.id == p.id,
        back.name@ == p.name@,
        received_date(p.created_at@, back.created_at),
    ensures
        back.id == r.id,
        back.name@ == r.name@,
        r.created_at is None ==> back.created_at is None,
{
}

/// A trashed role as the services answer with it.
#[derive(Debug, Clone)]
pub struct RoleResponseDeleteAt {
    pub id: i32,
    pub name: String,
    pub created_at: Option<String>,
    pub updated_at: Option<String>,
    pub deleted_at: Option<String>,
}

/// Whether a role answer shows this role row.
pub open spec fn shows_role(r: RoleResponse, row: RoleRecord) -> bool {
    &&& r.id == row.role_id
    &&& r.name@ == row.role_name@
    &&& r.created_at == row.created_at
    &&& r.updated_at == row.updated_at
}

/// Whether a trashed-role answer shows this role row.
pub open spec fn shows_trashed_role(r: RoleResponseDeleteAt, row: RoleRecord) -> bool {
    &&& r.id == row.role_id
    &&& r.name@ == row.role_name@
    &&& r.created_at == row.created_at
    &&& r.updated_at == row.updated_at
    &&& r.deleted_at == row.deleted_at
}

impl RoleResponse {
    /// The answer showing a role row.
    pub fn from_record(row: &RoleRecord) -> (r: RoleResponse)
        ensures
            shows_role(r, *row),
    {
        RoleResponse {
            id: row.role_id,
            name: row.role_name.clone(),
            created_at: copy_opt_text(&row.created_at),
            updated_at: copy_opt_text(&row.updated_at),
        }
    }
}

impl RoleResponseDeleteAt {
    /// The answer showing a trashed role row.
    pub fn from_record(row: &RoleRecord) -> (r: RoleResponseDeleteAt)
        ensures
            shows_trashed_role(r, *row),
    {
        RoleResponseDeleteAt {
            id: row.role_id,
            name: row.role_name.clone(),
            created_at: copy_opt_text(&row.created_at),
            updated_at: copy_opt_text(&row.updated_at),
            deleted_at: copy_opt_text(&row.deleted_at),
        }
    }
}

} // verus!
