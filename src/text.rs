use vstd::prelude::*;
use vstd::utf8::encode_utf8;
use crate::error::{ErrorCode, check};

verus! {

pub const MAX_USERNAME: usize = 32;
pub const MAX_DISPLAY_NAME: usize = 64;
pub const MAX_USER_ROLE: usize = 50;
pub const MAX_LOCATION: usize = 50;
pub const MAX_BIO: usize = 200;
pub const MAX_GITHUB_LINK: usize = 100;
pub const MAX_HASH: usize = 64;
pub const MAX_CONTACT_INFO: usize = 200;
pub const MAX_PROJECT_NAME: usize = 50;
pub const MAX_DESCRIPTION: usize = 1000;
pub const MAX_COLLAB_INTENT: usize = 300;
pub const MAX_TAG: usize = 24;
pub const MAX_TECH_TAGS: usize = 12;
pub const MAX_NEED_TAGS: usize = 10;
pub const MAX_CREATE_ROLES: usize = 8;
pub const MAX_UPDATE_ROLES: usize = 12;
pub const MAX_ROLE_NEEDED: u8 = 10;
pub const MAX_MESSAGE: usize = 500;

/// Length in bytes of the UTF-8 encoding of `s`.
pub open spec fn byte_len(s: Seq<char>) -> nat {
    encode_utf8(s).len()
}

/// The check that a text of `max` bytes or fewer passes, failing with `e`.
pub open spec fn len_check(s: Seq<char>, max: nat, e: ErrorCode) -> Option<ErrorCode> {
    check(byte_len(s) <= max, e)
}

/// The same check on a field that may be absent: an absent field passes.
pub open spec fn opt_len_check(s: Option<String>, max: nat, e: ErrorCode) -> Option<ErrorCode> {
    match s {
        Some(t) => len_check(t@, max, e),
        None => None,
    }
}

/// Length in bytes of `s`.
pub fn text_len(s: &String) -> (r: usize)
    ensures
        r == byte_len(s@),
{
    let b = s.as_str().as_bytes();
    b.len()
}

/// Fails with `e` where `s` is longer than `max` bytes.
pub fn check_len(s: &String, max: usize, e: ErrorCode) -> (r: Option<ErrorCode>)
    ensures
        r == len_check(s@, max as nat, e),
{
    if text_len(s) <= max {
        None
    } else {
        Some(e)
    }
}

/// Fails with `e` where `s` is present and longer than `max` bytes.
pub fn check_opt_len(s: &Option<String>, max: usize, e: ErrorCode) -> (r: Option<ErrorCode>)
    ensures
        r == opt_len_check(*s, max as nat, e),
{
    match s {
        Some(t) => check_len(t, max, e),
        None => None,
    }
}

/// Whether every text of `tags` is at most `max` bytes long.
pub open spec fn all_fit(tags: Seq<String>, max: nat) -> bool {
    forall|i: int| 0 <= i < tags.len() ==> byte_len(#[trigger] tags[i]@) <= max
}

/// The check of a tag list: at most `max_count` tags, failing with
/// `count_err`, then each at most `max_len` bytes, failing with `len_err`.
pub open spec fn tags_check(
    tags: Seq<String>,
    max_count: nat,
    count_err: ErrorCode,
    max_len: nat,
    len_err: ErrorCode,
) -> Option<ErrorCode> {
    if tags.len() > max_count {
        Some(count_err)
    } else if !all_fit(tags, max_len) {
        Some(len_err)
    } else {
        None
    }
}

/// Whether every text of `tags` is at most `max` bytes long.
pub fn check_all_fit(tags: &Vec<String>, max: usize) -> (r: bool)
    ensures
        r == all_fit(tags@, max as nat),
{
    let mut i: usize = 0;
    while i < tags.len()
        invariant
            0 <= i <= tags@.len(),
            forall|j: int| 0 <= j < i ==> byte_len(#[trigger] tags@[j]@) <= max,
        decreases tags@.len() - i,
    {
        if text_len(&tags[i]) > max {
            return false;
        }
        i = i + 1;
    }
    true
}

/// Checks a tag list as `tags_check` says.
pub fn check_tags(
    tags: &Vec<String>,
    max_count: usize,
    count_err: ErrorCode,
    max_len: usize,
    len_err: ErrorCode,
) -> (r: Option<ErrorCode>)
    ensures
        r == tags_check(tags@, max_count as nat, count_err, max_len as nat, len_err),
{
    if tags.len() > max_count {
        Some(count_err)
    } else if !check_all_fit(tags, max_len) {
        Some(len_err)
    } else {
        None
    }
}

/// Same as `tags_check` on a list that may be absent.
pub open spec fn opt_tags_check(
    tags: Option<Vec<String>>,
    max_count: nat,
    count_err: ErrorCode,
    max_len: nat,
    len_err: ErrorCode,
) -> Option<ErrorCode> {
    match tags {
        Some(t) => tags_check(t@, max_count, count_err, max_len, len_err),
        None => None,
    }
}

pub fn check_opt_tags(
    tags: &Option<Vec<String>>,
    max_count: usize,
    count_err: ErrorCode,
    max_len: usize,
    len_err: ErrorCode,
) -> (r: Option<ErrorCode>)
    ensures
        r == opt_tags_check(*tags, max_count as nat, count_err, max_len as nat, len_err),
{
    match tags {
        Some(t) => check_tags(t, max_count, count_err, max_len, len_err),
        None => None,
    }
}

/// What is left of `s` with leading and trailing whitespace removed.
pub uninterp spec fn trimmed(s: Seq<char>) -> Seq<char>;

/// Relies on `str::trim`: the result depends on the characters of `s` alone,
/// and the empty text stays empty.
#[verifier::external_body]
fn trim(s: &str) -> (r: &str)
    ensures
        r@ == trimmed(s@),
        s@.len() == 0 ==> r@.len() == 0,
{
    s.trim()
}

/// Whether `s` holds nothing but whitespace.
pub fn is_blank(s: &String) -> (r: bool)
    ensures
        r == (trimmed(s@).len() == 0),
{
    trim(s.as_str()).is_empty()
}

} // verus!
