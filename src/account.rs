use vstd::prelude::*;
use vstd::utf8::encode_utf8;

use crate::error::ErrorCode;
use crate::key::Key;

verus! {

/// Most bytes a username may hold.
pub const MAX_USERNAME_LEN: usize = 32;

/// Bytes reserved for the github handle in the fixed record layout.
pub const GITHUB_CAPACITY: usize = 64;

/// Bytes reserved for the twitter handle in the fixed record layout.
pub const TWITTER_CAPACITY: usize = 64;

/// Bytes reserved for the content hash in the fixed record layout.
pub const IPFS_HASH_CAPACITY: usize = 128;

/// Bytes allocated for one record: an 8-byte type tag, the owner key, four
/// length-prefixed strings at their capacities, two timestamps and the bump.
pub const DID_ACCOUNT_SPACE: usize = 8 + 32 + (4 + 32) + (4 + 64) + (4 + 64) + (4 + 128) + 8 + 8 + 1;

/// Length in bytes of the UTF-8 encoding of `s`.
pub open spec fn byte_len(s: Seq<char>) -> nat {
    encode_utf8(s).len()
}

/// Whether a username is accepted at creation.
pub open spec fn valid_username(s: Seq<char>) -> bool {
    1 <= byte_len(s) <= MAX_USERNAME_LEN
}

/// Whether the optional new values fit their fields' capacities.
pub open spec fn fields_error(
    github: Option<Seq<char>>,
    twitter: Option<Seq<char>>,
    ipfs_hash: Option<Seq<char>>,
) -> Option<ErrorCode> {
    if github matches Some(g) && byte_len(g) > GITHUB_CAPACITY {
        Some(ErrorCode::GithubTooLong)
    } else if twitter matches Some(t) && byte_len(t) > TWITTER_CAPACITY {
        Some(ErrorCode::TwitterTooLong)
    } else if ipfs_hash matches Some(h) && byte_len(h) > IPFS_HASH_CAPACITY {
        Some(ErrorCode::IpfsHashTooLong)
    } else {
        None
    }
}

/// Whether the strings of a record fit the fixed record layout.
pub open spec fn fits_layout(rec: DidRecord) -> bool {
    &&& valid_username(rec.username)
    &&& byte_len(rec.github) <= GITHUB_CAPACITY
    &&& byte_len(rec.twitter) <= TWITTER_CAPACITY
    &&& byte_len(rec.ipfs_hash) <= IPFS_HASH_CAPACITY
}

/// An identity record as stored in the registry.
#[derive(Clone, Debug)]
pub struct DidAccount {
    pub owner: Key,
    pub username: String,
    pub github: String,
    pub twitter: String,
    pub ipfs_hash: String,
    pub created_at: i64,
    pub updated_at: i64,
    pub bump: u8,
}

/// The mathematical value of an identity record.
pub struct DidRecord {
    pub owner: Seq<u8>,
    pub username: Seq<char>,
    pub github: Seq<char>,
    pub twitter: Seq<char>,
    pub ipfs_hash: Seq<char>,
    pub created_at: i64,
    pub updated_at: i64,
    pub bump: u8,
}

impl View for DidAccount {
    type V = DidRecord;

    open spec fn view(&self) -> DidRecord {
        DidRecord {
            owner: self.owner@,
            username: self.username@,
            github: self.github@,
            twitter: self.twitter@,
            ipfs_hash: self.ipfs_hash@,
            created_at: self.created_at,
            updated_at: self.updated_at,
            bump: self.bump,
        }
    }
}

/// The view of an optional new string value.
pub open spec fn opt_view(o: Option<String>) -> Option<Seq<char>> {
    match o {
        Some(s) => Some(s@),
        None => None,
    }
}

/// The value an optional update gives a field that held `current`.
pub open spec fn updated_field(current: Seq<char>, new: Option<Seq<char>>) -> Seq<char> {
    match new {
        Some(v) => v,
        None => current,
    }
}

/// A record after an update: each present field replaced, the time refreshed.
pub open spec fn record_after_update(
    rec: DidRecord,
    github: Option<Seq<char>>,
    twitter: Option<Seq<char>>,
    ipfs_hash: Option<Seq<char>>,
    now: i64,
) -> DidRecord {
    DidRecord {
        github: updated_field(rec.github, github),
        twitter: updated_field(rec.twitter, twitter),
        ipfs_hash: updated_field(rec.ipfs_hash, ipfs_hash),
        updated_at: now,
        ..rec
    }
}

/// Checks that `s` fits a field of `capacity` bytes, failing with `e`.
pub fn check_capacity(s: &String, capacity: usize, e: ErrorCode) -> (r: Result<(), ErrorCode>)
    ensures
        r == if byte_len(s@) <= capacity { Ok::<(), ErrorCode>(()) } else { Err(e) },
{
    if s.as_str().as_bytes().len() <= capacity {
        Ok(())
    } else {
        Err(e)
    }
}

/// Checks the optional new field values against their capacities.
pub fn check_fields(
    github: &Option<String>,
    twitter: &Option<String>,
    ipfs_hash: &Option<String>,
) -> (r: Result<(), ErrorCode>)
    ensures
        r == match fields_error(opt_view(*github), opt_view(*twitter), opt_view(*ipfs_hash)) {
            Some(e) => Err(e),
            None => Ok::<(), ErrorCode>(()),
        },
{
    if let Some(g) = github {
        check_capacity(g, GITHUB_CAPACITY, ErrorCode::GithubTooLong)?;
    }
    if let Some(t) = twitter {
        check_capacity(t, TWITTER_CAPACITY, ErrorCode::TwitterTooLong)?;
    }
    if let Some(h) = ipfs_hash {
        check_capacity(h, IPFS_HASH_CAPACITY, ErrorCode::IpfsHashTooLong)?;
    }
    Ok(())
}

/// Checks a username against the creation rules: `Ok` when it holds 1 to 32
/// bytes.
pub fn check_username(username: &String) -> (r: Result<(), ErrorCode>)
    ensures
        byte_len(username@) == 0 <==> r == Err::<(), _>(ErrorCode::UsernameEmpty),
        byte_len(username@) > MAX_USERNAME_LEN <==> r == Err::<(), _>(ErrorCode::UsernameTooLong),
        valid_username(username@) <==> r is Ok,
{
    let n = username.as_str().as_bytes().len();
    if n == 0 {
        Err(ErrorCode::UsernameEmpty)
    } else if n > MAX_USERNAME_LEN {
        Err(ErrorCode::UsernameTooLong)
    } else {
        Ok(())
    }
}

} // verus!
