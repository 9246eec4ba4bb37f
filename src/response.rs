//! The response envelope `{code, data, message}`, the error that maps onto
//! it, and paging helpers.

use vstd::prelude::*;

use crate::json::str_eq;

verus! {

pub const CODE_OK: i32 = 0;

pub const CODE_SYS_ERROR: i32 = 500;

pub const CODE_VALIDATION_ERROR: i32 = 6001;

pub const CODE_BUSINESS_ERROR: i32 = 7002;

pub const HTTP_OK: u16 = 200;

pub const HTTP_INTERNAL_SERVER_ERROR: u16 = 500;

/// The response envelope.
pub struct RespResult<T> {
    pub code: i32,
    pub data: Option<T>,
    pub message: String,
}

impl<T> RespResult<T> {
    pub fn ok(data: T) -> (r: Self)
        ensures
            r.code == CODE_OK && r.data == Some(data) && r.message@ == "ok"@,
    {
        RespResult { code: CODE_OK, message: String::from_str("ok"), data: Some(data) }
    }

    pub fn ok_with_msg(msg: String) -> (r: Self)
        ensures
            r.code == CODE_OK && r.data is None && r.message == msg,
    {
        RespResult { code: CODE_OK, message: msg, data: None }
    }

    pub fn sys_error(msg: String) -> (r: Self)
        ensures
            r.code == CODE_SYS_ERROR && r.data is None && r.message == msg,
    {
        RespResult { code: CODE_SYS_ERROR, message: msg, data: None }
    }

    pub fn validation_error(msg: String) -> (r: Self)
        ensures
            r.code == CODE_VALIDATION_ERROR && r.data is None && r.message == msg,
    {
        RespResult { code: CODE_VALIDATION_ERROR, message: msg, data: None }
    }

    pub fn business_error(msg: String) -> (r: Self)
        ensures
            r.code == CODE_BUSINESS_ERROR && r.data is None && r.message == msg,
    {
        RespResult { code: CODE_BUSINESS_ERROR, message: msg, data: None }
    }
}

/// A failure of the pipeline, carried as its user-facing message.
pub struct AppError {
    pub message: String,
}

/// The prefix that marks a business failure.
pub open spec fn bail_prefix() -> Seq<char> {
    "Bail: "@
}

pub open spec fn is_bail(m: Seq<char>) -> bool {
    m.len() >= 6 && m.subrange(0, 6) == bail_prefix()
}

impl AppError {
    pub fn new(message: String) -> (r: AppError)
        ensures
            r.message == message,
    {
        AppError { message }
    }

    /// The HTTP status and envelope of the error: a message starting with
    /// `"Bail: "` is a business error (status 200, the prefix removed), any
    /// other a system error (status 500).
    pub fn into_response(&self) -> (r: (u16, RespResult<()>))
        ensures
            is_bail(self.message@) ==> r.0 == HTTP_OK && r.1.code == CODE_BUSINESS_ERROR
                && r.1.message@ == self.message@.subrange(6, self.message@.len() as int),
            !is_bail(self.message@) ==> r.0 == HTTP_INTERNAL_SERVER_ERROR && r.1.code
                == CODE_SYS_ERROR && r.1.message@ == self.message@,
            r.1.data is None,
    {
        let m = self.message.as_str();
        let n = m.unicode_len();
        proof {
            reveal_strlit("Bail: ");
        }
        if n >= 6 && str_eq(m.substring_char(0, 6), "Bail: ") {
            let rest = String::from_str(m.substring_char(6, n));
            (HTTP_OK, RespResult::business_error(rest))
        } else {
            (HTTP_INTERNAL_SERVER_ERROR, RespResult::sys_error(self.message.clone()))
        }
    }
}

/// An internal error: status 500 with a system-error envelope.
pub fn internal_err(err: String) -> (r: (u16, RespResult<String>))
    ensures
        r.0 == HTTP_INTERNAL_SERVER_ERROR && r.1.code == CODE_SYS_ERROR && r.1.message == err
            && r.1.data is None,
{
    (HTTP_INTERNAL_SERVER_ERROR, RespResult::sys_error(err))
}

/// An internal error from a general error value, carried as its message.
pub fn internal_anyhow_err(err: String) -> (r: (u16, RespResult<String>))
    ensures
        r.0 == HTTP_INTERNAL_SERVER_ERROR && r.1.code == CODE_SYS_ERROR && r.1.message == err
            && r.1.data is None,
{
    internal_err(err)
}

/// A validation failure: status 200 with a validation-error envelope.
pub fn validation_err(err: String) -> (r: (u16, RespResult<String>))
    ensures
        r.0 == HTTP_OK && r.1.code == CODE_VALIDATION_ERROR && r.1.message == err && r.1.data is None,
{
    (HTTP_OK, RespResult::validation_error(err))
}

/// A business failure: status 200 with a business-error envelope.
pub fn business_error(err: String) -> (r: (u16, RespResult<String>))
    ensures
        r.0 == HTTP_OK && r.1.code == CODE_BUSINESS_ERROR && r.1.message == err && r.1.data is None,
{
    (HTTP_OK, RespResult::business_error(err))
}

/// Paging position and total.
pub struct PageInfo {
    page: u64,
    size: u64,
    total: u64,
}

impl PageInfo {
    pub closed spec fn spec_page(&self) -> u64 {
        self.page
    }

    pub closed spec fn spec_size(&self) -> u64 {
        self.size
    }

    pub closed spec fn spec_total(&self) -> u64 {
        self.total
    }

    pub fn from(page: u64, size: u64, total: u64) -> (r: Self)
        ensures
            r.spec_page() == page && r.spec_size() == size && r.spec_total() == total,
    {
        PageInfo { page, size, total }
    }

    pub fn page(&self) -> (r: u64)
        ensures
            r == self.spec_page(),
    {
        self.page
    }

    pub fn size(&self) -> (r: u64)
        ensures
            r == self.spec_size(),
    {
        self.size
    }

    pub fn total(&self) -> (r: u64)
        ensures
            r == self.spec_total(),
    {
        self.total
    }
}

/// One page of items with its paging information.
pub struct PageData<T> {
    pub page_info: PageInfo,
    pub page_data: Vec<T>,
}

impl<T> PageData<T> {
    pub fn new(page_info: PageInfo, page_data: Vec<T>) -> (r: Self)
        ensures
            r.page_info == page_info && r.page_data == page_data,
    {
        PageData { page_info, page_data }
    }
}

/// Items to skip for a page: none for the first page (or no page given),
/// `(page - 1) * size` otherwise, with size 20 where none is given. Page 0,
/// and an offset beyond `u64`, have none.
pub open spec fn offset_of(page: Option<u64>, size: Option<u64>) -> Option<u64> {
    let p: int = match page {
        Some(p) => p as int,
        None => 1,
    };
    let s: int = match size {
        Some(s) => s as int,
        None => 20,
    };
    if p == 1 {
        Some(0)
    } else if p == 0 || (p - 1) * s > u64::MAX {
        None
    } else {
        Some(((p - 1) * s) as u64)
    }
}

pub fn page_offset(page: Option<u64>, size: Option<u64>) -> (r: Option<u64>)
    ensures
        r == offset_of(page, size),
{
    let p: u64 = match page {
        Some(p) => p,
        None => 1,
    };
    let s: u64 = match size {
        Some(s) => s,
        None => 20,
    };
    if p == 1 {
        Some(0)
    } else if p == 0 {
        None
    } else {
        (p - 1).checked_mul(s)
    }
}

/// A request that asks for one page of a listing.
pub trait Pageable {
    fn get_page(&self) -> Option<u64>;

    fn get_size(&self) -> Option<u64> {
        Some(20)
    }

    /// The offset `page_offset` gives for this request's page and size.
    fn get_offset(&self) -> Option<u64> {
        let page = self.get_page();
        let size = self.get_size();
        page_offset(page, size)
    }
}

} // verus!
