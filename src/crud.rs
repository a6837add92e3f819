//! The item records of the gateway's CRUD surface and the checks on requests.

use vstd::prelude::*;
use crate::error::opt_chars;
use crate::ids::now_millis;
use vstd::string::StringExecFns;
use crate::text::{is_blank, is_blank_chars, owned};

verus! {

/// A stored item. Times are milliseconds since the Unix epoch.
#[derive(Debug)]
pub struct Item {
    pub id: String,
    pub name: String,
    pub description: Option<String>,
    pub value: i32,
    pub created_at: i64,
    pub updated_at: i64,
}

/// A request to create an item.
#[derive(Debug)]
pub struct CreateItemRequest {
    pub name: String,
    pub description: Option<String>,
    pub value: i32,
}

/// A request to change some fields of an item.
#[derive(Debug)]
pub struct UpdateItemRequest {
    pub name: Option<String>,
    pub description: Option<String>,
    pub value: Option<i32>,
}

/// The reply to a deletion.
#[derive(Debug)]
pub struct DeleteItemResponse {
    pub message: String,
    pub deleted_id: String,
}

/// Paging of a list request.
#[derive(Debug)]
pub struct ListItemsQuery {
    pub limit: Option<u32>,
    pub offset: Option<u32>,
    pub sort_by: Option<String>,
    /// `asc` or `desc`.
    pub order: Option<String>,
}

/// Failures of the CRUD surface.
#[derive(Debug)]
pub enum CrudError {
    ItemNotFound { id: String },
    ItemNameExists { name: String },
    InvalidParameter { message: String },
    Database { message: String },
    Validation { message: String },
}

/// The longest name, in bytes of UTF-8.
pub const MAX_NAME_BYTES: usize = 100;

/// The longest description, in bytes of UTF-8.
pub const MAX_DESCRIPTION_BYTES: usize = 500;

/// Which rule a name or description breaks, if any: blank name, long name,
/// long description, checked in that order.
pub open spec fn violation(name: Option<Seq<char>>, description: Option<Seq<char>>) -> Option<nat> {
    if name is Some && is_blank_chars(name->0) {
        Some(0)
    } else if name is Some && utf8_len(name->0) > MAX_NAME_BYTES {
        Some(1)
    } else if description is Some && utf8_len(description->0) > MAX_DESCRIPTION_BYTES {
        Some(2)
    } else {
        None
    }
}

/// The length of the UTF-8 encoding of the characters.
pub open spec fn utf8_len(s: Seq<char>) -> nat {
    vstd::utf8::encode_utf8(s).len()
}

/// The message of each broken rule.
pub open spec fn violation_message(v: nat) -> Seq<char> {
    if v == 0 {
        "名称不能为空"@
    } else if v == 1 {
        "名称长度不能超过100字符"@
    } else {
        "描述长度不能超过500字符"@
    }
}

fn check_fields(name: Option<&str>, description: Option<&str>) -> (r: Result<(), CrudError>)
    ensures
        match violation(opt_view(name), opt_view(description)) {
            None => r is Ok,
            Some(v) => r matches Err(CrudError::Validation { message }) && message@
                == violation_message(v),
        },
{
    match name {
        Some(n) => {
            if is_blank(n) {
                return Err(CrudError::Validation { message: owned("名称不能为空") });
            }
            if n.as_bytes().len() > MAX_NAME_BYTES {
                return Err(CrudError::Validation { message: owned("名称长度不能超过100字符") });
            }
        },
        None => {},
    }
    match description {
        Some(d) => {
            if d.as_bytes().len() > MAX_DESCRIPTION_BYTES {
                return Err(CrudError::Validation { message: owned("描述长度不能超过500字符") });
            }
        },
        None => {},
    }
    Ok(())
}

/// The characters of an optional slice.
pub open spec fn opt_view(o: Option<&str>) -> Option<Seq<char>> {
    match o {
        Some(s) => Some(s@),
        None => None,
    }
}

fn opt_str(o: &Option<String>) -> (r: Option<&str>)
    ensures
        opt_view(r) == opt_chars(*o),
{
    match o {
        Some(s) => Some(s.as_str()),
        None => None,
    }
}

impl CreateItemRequest {
    /// The name must not be blank nor longer than 100 bytes; the description
    /// no longer than 500 bytes.
    pub fn validate(&self) -> (r: Result<(), CrudError>)
        ensures
            match violation(Some(self.name@), opt_chars(self.description)) {
                None => r is Ok,
                Some(v) => r matches Err(CrudError::Validation { message }) && message@
                    == violation_message(v),
            },
    {
        check_fields(Some(self.name.as_str()), opt_str(&self.description))
    }
}

impl UpdateItemRequest {
    /// A name, when given, must not be blank nor longer than 100 bytes; a
    /// description no longer than 500 bytes.
    pub fn validate(&self) -> (r: Result<(), CrudError>)
        ensures
            match violation(opt_chars(self.name), opt_chars(self.description)) {
                None => r is Ok,
                Some(v) => r matches Err(CrudError::Validation { message }) && message@
                    == violation_message(v),
            },
    {
        check_fields(opt_str(&self.name), opt_str(&self.description))
    }

    /// Whether any field is to change.
    pub fn has_updates(&self) -> (r: bool)
        ensures
            r == (self.name is Some || self.description is Some || self.value is Some),
    {
        self.name.is_some() || self.description.is_some() || self.value.is_some()
    }
}

impl Item {
    /// A new item, created and updated now.
    pub fn new(id: String, name: String, description: Option<String>, value: i32) -> (r: Item)
        ensures
            r.id@ == id@,
            r.name@ == name@,
            opt_chars(r.description) == opt_chars(description),
            r.value == value,
            r.created_at == r.updated_at,
    {
        let now = now_millis();
        Item { id, name, description, value, created_at: now, updated_at: now }
    }

    /// Applies the fields that the request gives, and stamps the update time.
    pub fn apply_update(&mut self, req: &UpdateItemRequest)
        ensures
            final(self).id@ == old(self).id@,
            final(self).created_at == old(self).created_at,
            final(self).name@ == match req.name {
                Some(n) => n@,
                None => old(self).name@,
            },
            opt_chars(final(self).description) == match req.description {
                Some(d) => Some(d@),
                None => opt_chars(old(self).description),
            },
            final(self).value == match req.value {
                Some(v) => v,
                None => old(self).value,
            },
    {
        match &req.name {
            Some(n) => self.name = n.clone(),
            None => {},
        }
        match &req.description {
            Some(d) => self.description = Some(d.clone()),
            None => {},
        }
        match req.value {
            Some(v) => self.value = v,
            None => {},
        }
        self.updated_at = now_millis();
    }
}

impl CrudError {
    pub open spec fn message_spec(&self) -> Seq<char> {
        match self {
            CrudError::ItemNotFound { id } => "Item不存在："@ + id@,
            CrudError::ItemNameExists { name } => "Item名称已存在："@ + name@,
            CrudError::InvalidParameter { message } => "无效的参数："@ + message@,
            CrudError::Database { message } => "数据库错误："@ + message@,
            CrudError::Validation { message } => "验证错误："@ + message@,
        }
    }

    /// The error as text.
    pub fn message(&self) -> (r: String)
        ensures
            r@ == self.message_spec(),
    {
        let (head, tail) = match self {
            CrudError::ItemNotFound { id } => ("Item不存在：", id),
            CrudError::ItemNameExists { name } => ("Item名称已存在：", name),
            CrudError::InvalidParameter { message } => ("无效的参数：", message),
            CrudError::Database { message } => ("数据库错误：", message),
            CrudError::Validation { message } => ("验证错误：", message),
        };
        let mut s = owned(head);
        s.append(tail.as_str());
        s
    }
}

} // verus!
