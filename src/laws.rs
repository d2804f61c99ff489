use vstd::prelude::*;

use crate::account::{
    byte_len, valid_username, DidRecord, GITHUB_CAPACITY, IPFS_HASH_CAPACITY, TWITTER_CAPACITY,
};
use crate::address::did_address_of;
use crate::error::ErrorCode;
use crate::registry::{admits_time, create_spec, delete_spec, records_wf, update_spec, Records};

verus! {

/// The arguments of one update call.
pub struct UpdateCall {
    pub user: Seq<u8>,
    pub owner: Seq<u8>,
    pub github: Option<Seq<char>>,
    pub twitter: Option<Seq<char>>,
    pub ipfs_hash: Option<Seq<char>>,
    pub now: i64,
}

/// The records after a sequence of update calls, failed ones included.
pub open spec fn run_updates(records: Records, program_id: Seq<u8>, calls: Seq<UpdateCall>) -> Records
    decreases calls.len(),
{
    if calls.len() == 0 {
        records
    } else {
        let c = calls.last();
        let before = run_updates(records, program_id, calls.drop_last());
        update_spec(before, program_id, c.user, c.owner, c.github, c.twitter, c.ipfs_hash, c.now).1
    }
}

/// In a well-formed registry each owner has at most one record: two records
/// with the same owner sit at the same address.
pub proof fn lemma_one_record_per_owner(records: Records, program_id: Seq<u8>, a1: Seq<u8>, a2: Seq<u8>)
    requires
        records_wf(records, program_id),
        records.contains_key(a1),
        records.contains_key(a2),
        records[a1].owner == records[a2].owner,
    ensures
        a1 == a2,
{
}

/// A successful create stores a record whose creation and update times are
/// both the clock reading of the call.
pub proof fn lemma_create_stamps_once(
    records: Records,
    program_id: Seq<u8>,
    user: Seq<u8>,
    username: Seq<char>,
    github: Seq<char>,
    twitter: Seq<char>,
    ipfs_hash: Seq<char>,
    now: i64,
)
    requires
        create_spec(records, program_id, user, username, github, twitter, ipfs_hash, now).0 is Ok,
    ensures
        ({
            let after = create_spec(records, program_id, user, username, github, twitter, ipfs_hash, now).1;
            let a = did_address_of(user, program_id).unwrap().0;
            &&& after.contains_key(a)
            &&& after[a].owner == user
            &&& after[a].created_at == now
            &&& after[a].updated_at == now
        }),
{
}

/// No sequence of update calls removes a record or changes its owner or
/// username.
pub proof fn lemma_updates_keep_owner(records: Records, program_id: Seq<u8>, calls: Seq<UpdateCall>)
    ensures
        forall|a: Seq<u8>| #[trigger] records.contains_key(a) ==> {
            let after = run_updates(records, program_id, calls);
            &&& after.contains_key(a)
            &&& after[a].owner == records[a].owner
            &&& after[a].username == records[a].username
        },
    decreases calls.len(),
{
    if calls.len() > 0 {
        lemma_updates_keep_owner(records, program_id, calls.drop_last());
    }
}

/// An update that carries only a new github handle replaces that handle,
/// keeps the other fields, and moves the update time forward.
pub proof fn lemma_partial_update(
    records: Records,
    program_id: Seq<u8>,
    user: Seq<u8>,
    owner: Seq<u8>,
    github: Seq<char>,
    now: i64,
)
    requires
        admits_time(records, now),
        update_spec(records, program_id, user, owner, Some(github), None, None, now).0 is Ok,
    ensures
        ({
            let after = update_spec(records, program_id, user, owner, Some(github), None, None, now).1;
            let a = did_address_of(user, program_id).unwrap().0;
            let rec = records[a];
            &&& records.contains_key(a)
            &&& after.contains_key(a)
            &&& after[a].github == github
            &&& after[a].twitter == rec.twitter
            &&& after[a].ipfs_hash == rec.ipfs_hash
            &&& after[a].owner == rec.owner
            &&& after[a].username == rec.username
            &&& after[a].created_at == rec.created_at
            &&& after[a].updated_at == now
            &&& after[a].updated_at >= rec.updated_at
            &&& after.remove(a) == records.remove(a)
        }),
{
    let a = did_address_of(user, program_id).unwrap().0;
    let after = update_spec(records, program_id, user, owner, Some(github), None, None, now).1;
    assert(after.remove(a) =~= records.remove(a));
}

/// An update or delete whose claimed owner is not the stored owner of the
/// signer's record fails with `Unauthorized` and changes nothing.
pub proof fn lemma_unauthorized_changes_nothing(
    records: Records,
    program_id: Seq<u8>,
    user: Seq<u8>,
    owner: Seq<u8>,
    github: Option<Seq<char>>,
    twitter: Option<Seq<char>>,
    ipfs_hash: Option<Seq<char>>,
    now: i64,
)
    requires
        did_address_of(user, program_id) is Some,
        records.contains_key(did_address_of(user, program_id).unwrap().0),
        records[did_address_of(user, program_id).unwrap().0].owner != owner,
    ensures
        update_spec(records, program_id, user, owner, github, twitter, ipfs_hash, now)
            == (Err::<(), ErrorCode>(ErrorCode::Unauthorized), records),
        delete_spec(records, program_id, user, owner) == (Err::<(), ErrorCode>(ErrorCode::Unauthorized), records),
{
}

/// After a successful delete the signer's address holds no record: a later
/// update or delete fails with `RecordNotFound`, and a later create whose
/// strings fit the record layout succeeds with a fresh record stamped at its own time.
pub proof fn lemma_delete_is_final(
    records: Records,
    program_id: Seq<u8>,
    user: Seq<u8>,
    owner: Seq<u8>,
    claimed: Seq<u8>,
    github: Option<Seq<char>>,
    twitter: Option<Seq<char>>,
    ipfs_hash: Option<Seq<char>>,
    username: Seq<char>,
    new_github: Seq<char>,
    new_twitter: Seq<char>,
    new_ipfs_hash: Seq<char>,
    now: i64,
)
    requires
        delete_spec(records, program_id, user, owner).0 is Ok,
        valid_username(username),
        byte_len(new_github) <= GITHUB_CAPACITY,
        byte_len(new_twitter) <= TWITTER_CAPACITY,
        byte_len(new_ipfs_hash) <= IPFS_HASH_CAPACITY,
    ensures
        ({
            let after = delete_spec(records, program_id, user, owner).1;
            let a = did_address_of(user, program_id).unwrap().0;
            let bump = did_address_of(user, program_id).unwrap().1;
            &&& !after.contains_key(a)
            &&& after == records.remove(a)
            &&& update_spec(after, program_id, user, claimed, github, twitter, ipfs_hash, now)
                == (Err::<(), ErrorCode>(ErrorCode::RecordNotFound), after)
            &&& delete_spec(after, program_id, user, claimed)
                == (Err::<(), ErrorCode>(ErrorCode::RecordNotFound), after)
            &&& create_spec(after, program_id, user, username, new_github, new_twitter, new_ipfs_hash, now)
                == (Ok::<(), ErrorCode>(()), after.insert(a, DidRecord {
                    owner: user,
                    username,
                    github: new_github,
                    twitter: new_twitter,
                    ipfs_hash: new_ipfs_hash,
                    created_at: now,
                    updated_at: now,
                    bump,
                }))
        }),
{
}

/// A second create by the same signer fails with `RecordAlreadyExists` and
/// leaves the record of the first create as it was.
pub proof fn lemma_no_double_create(
    records: Records,
    program_id: Seq<u8>,
    user: Seq<u8>,
    username: Seq<char>,
    github: Seq<char>,
    twitter: Seq<char>,
    ipfs_hash: Seq<char>,
    now: i64,
    username2: Seq<char>,
    github2: Seq<char>,
    twitter2: Seq<char>,
    ipfs_hash2: Seq<char>,
    now2: i64,
)
    requires
        create_spec(records, program_id, user, username, github, twitter, ipfs_hash, now).0 is Ok,
    ensures
        ({
            let first = create_spec(records, program_id, user, username, github, twitter, ipfs_hash, now).1;
            create_spec(first, program_id, user, username2, github2, twitter2, ipfs_hash2, now2)
                == (Err::<(), ErrorCode>(ErrorCode::RecordAlreadyExists), first)
        }),
{
}

} // verus!
