use vstd::prelude::*;

use crate::account::{
    byte_len, check_capacity, check_fields, check_username, fields_error, fits_layout, opt_view,
    record_after_update, DidAccount, DidRecord, GITHUB_CAPACITY, IPFS_HASH_CAPACITY,
    MAX_USERNAME_LEN, TWITTER_CAPACITY,
};
use crate::address::{derive_did_address, did_address_of};
use crate::error::ErrorCode;
use crate::key::Key;

verus! {

/// The records of a registry, keyed by address.
pub type Records = Map<Seq<u8>, DidRecord>;

/// What every stored record satisfies: it sits at the address derived from its
/// owner and keeps that derivation's bump, its strings fit the fixed record
/// layout, and it was not updated before it was created.
pub open spec fn records_wf(records: Records, program_id: Seq<u8>) -> bool {
    forall|a: Seq<u8>| #[trigger] records.contains_key(a) ==> {
        &&& did_address_of(records[a].owner, program_id) == Some((a, records[a].bump))
        &&& fits_layout(records[a])
        &&& records[a].created_at <= records[a].updated_at
    }
}

/// The clock reading `now` is not earlier than the last update of any record.
pub open spec fn admits_time(records: Records, now: i64) -> bool {
    forall|a: Seq<u8>| #[trigger] records.contains_key(a) ==> records[a].updated_at <= now
}

/// One stored record and the address it is stored at.
pub(crate) struct Entry {
    pub(crate) address: Key,
    pub(crate) account: DidAccount,
}

/// The records of a sequence of entries; a later entry wins.
pub(crate) closed spec fn map_of(s: Seq<Entry>) -> Records
    decreases s.len(),
{
    if s.len() == 0 {
        Map::empty()
    } else {
        map_of(s.drop_last()).insert(s.last().address@, s.last().account@)
    }
}

/// No two entries share an address.
pub(crate) open spec fn unique_addresses(s: Seq<Entry>) -> bool {
    forall|i: int, j: int|
        0 <= i < j < s.len() ==> #[trigger] s[i].address@ != #[trigger] s[j].address@
}

proof fn lemma_map_of_domain(s: Seq<Entry>, a: Seq<u8>)
    ensures
        map_of(s).contains_key(a) <==> exists|i: int| 0 <= i < s.len() && #[trigger] s[i].address@ == a,
    decreases s.len(),
{
    if s.len() > 0 {
        lemma_map_of_domain(s.drop_last(), a);
        if map_of(s.drop_last()).contains_key(a) {
            let i = choose|i: int| 0 <= i < s.drop_last().len() && #[trigger] s.drop_last()[i].address@ == a;
            assert(s[i].address@ == a);
        }
        if exists|i: int| 0 <= i < s.len() && #[trigger] s[i].address@ == a {
            let i = choose|i: int| 0 <= i < s.len() && #[trigger] s[i].address@ == a;
            if i < s.len() - 1 {
                assert(s.drop_last()[i].address@ == a);
            }
        }
    }
}

proof fn lemma_map_of_at(s: Seq<Entry>, i: int)
    requires
        unique_addresses(s),
        0 <= i < s.len(),
    ensures
        map_of(s).contains_key(s[i].address@),
        map_of(s)[s[i].address@] == s[i].account@,
    decreases s.len(),
{
    if i < s.len() - 1 {
        let t = s.drop_last();
        assert(t[i] == s[i]);
        lemma_map_of_at(t, i);
        assert(s[i].address@ != s[s.len() - 1].address@);
    }
}

proof fn lemma_map_of_remove(s: Seq<Entry>, i: int)
    requires
        unique_addresses(s),
        0 <= i < s.len(),
    ensures
        map_of(s.remove(i)) == map_of(s).remove(s[i].address@),
        unique_addresses(s.remove(i)),
    decreases s.len(),
{
    let a = s[i].address@;
    let t = s.drop_last();
    assert(unique_addresses(t)) by {
        assert forall|x: int, y: int| 0 <= x < y < t.len() implies #[trigger] t[x].address@ != #[trigger] t[y].address@ by {
            assert(t[x] == s[x] && t[y] == s[y]);
        }
    }
    let r = s.remove(i);
    assert(unique_addresses(r)) by {
        assert forall|x: int, y: int| 0 <= x < y < r.len() implies #[trigger] r[x].address@ != #[trigger] r[y].address@ by {
            let x1 = if x < i { x } else { x + 1 };
            let y1 = if y < i { y } else { y + 1 };
            assert(r[x] == s[x1] && r[y] == s[y1]);
        }
    }
    if i == s.len() - 1 {
        assert(r =~= t);
        lemma_map_of_domain(t, a);
        assert(!map_of(t).contains_key(a)) by {
            if map_of(t).contains_key(a) {
                let j = choose|j: int| 0 <= j < t.len() && #[trigger] t[j].address@ == a;
                assert(s[j].address@ == a);
            }
        }
        assert(map_of(s).remove(a) =~= map_of(t));
    } else {
        lemma_map_of_remove(t, i);
        assert(r.drop_last() =~= t.remove(i));
        assert(r.last() == s.last());
        assert(s.last().address@ != a);
        assert(map_of(r) =~= map_of(s).remove(a));
    }
}

/// The identity records of one program, each stored at the address derived
/// from its owner's key.
pub struct Registry {
    program_id: Key,
    entries: Vec<Entry>,
}

impl View for Registry {
    type V = Records;

    closed spec fn view(&self) -> Records {
        map_of(self.entries@)
    }
}

impl Registry {
    /// The id of the program whose records these are.
    pub closed spec fn program(&self) -> Seq<u8> {
        self.program_id@
    }

    /// The storage holds each address at most once.
    pub closed spec fn storage_wf(&self) -> bool {
        unique_addresses(self.entries@)
    }

    pub open spec fn wf(&self) -> bool {
        &&& self.storage_wf()
        &&& records_wf(self@, self.program())
    }

    /// An empty registry for the program `program_id`.
    pub fn new(program_id: Key) -> (r: Registry)
        ensures
            r.wf(),
            r@ == Map::<Seq<u8>, DidRecord>::empty(),
            r.program() == program_id@,
    {
        let r = Registry { program_id, entries: Vec::new() };
        assert(r@ == map_of(Seq::<Entry>::empty()));
        r
    }

    /// The id of the program whose records these are.
    pub fn program_id(&self) -> (r: Key)
        ensures
            r@ == self.program(),
    {
        self.program_id
    }

    /// The number of records.
    pub fn len(&self) -> (r: usize)
        requires
            self.wf(),
        ensures
            r == self@.len(),
    {
        proof { self.lemma_len(); }
        self.entries.len()
    }

    proof fn lemma_len(&self)
        requires
            self.wf(),
        ensures
            self@.dom().finite(),
            self@.len() == self.entries@.len(),
    {
        lemma_map_of_len(self.entries@);
    }

    /// The index of the entry stored at `address`, if any.
    fn find(&self, address: &Key) -> (r: Option<usize>)
        requires
            self.wf(),
        ensures
            match r {
                Some(i) => {
                    &&& i < self.entries@.len()
                    &&& self.entries@[i as int].address@ == address@
                    &&& self@.contains_key(address@)
                    &&& self@[address@] == self.entries@[i as int].account@
                },
                None => !self@.contains_key(address@),
            },
    {
        let mut i: usize = 0;
        while i < self.entries.len()
            invariant
                self.wf(),
                i <= self.entries@.len(),
                forall|j: int| 0 <= j < i ==> #[trigger] self.entries@[j].address@ != address@,
            decreases self.entries@.len() - i,
        {
            if self.entries[i].address.same_as(address) {
                proof { lemma_map_of_at(self.entries@, i as int); }
                return Some(i);
            }
            i = i + 1;
        }
        proof { lemma_map_of_domain(self.entries@, address@); }
        None
    }

    /// The record stored at `address`, if any.
    pub fn get(&self, address: &Key) -> (r: Option<&DidAccount>)
        requires
            self.wf(),
        ensures
            match r {
                Some(acc) => self@.contains_key(address@) && self@[address@] == acc@,
                None => !self@.contains_key(address@),
            },
    {
        match self.find(address) {
            Some(i) => Some(&self.entries[i].account),
            None => None,
        }
    }

    /// The record of `owner`, looked up at the address derived from its key.
    pub fn record_of(&self, owner: &Key) -> (r: Option<&DidAccount>)
        requires
            self.wf(),
        ensures
            match did_address_of(owner@, self.program()) {
                None => r is None,
                Some((a, _)) => match r {
                    Some(acc) => self@.contains_key(a) && self@[a] == acc@,
                    None => !self@.contains_key(a),
                },
            },
    {
        match derive_did_address(owner, &self.program_id) {
            Some((a, _)) => self.get(&a),
            None => None,
        }
    }

    /// Whether the clock reading `now` is not earlier than any record's last
    /// update, as a monotonic clock guarantees.
    pub fn admits_time(&self, now: i64) -> (r: bool)
        requires
            self.wf(),
        ensures
            r == admits_time(self@, now),
    {
        let mut i: usize = 0;
        while i < self.entries.len()
            invariant
                self.wf(),
                i <= self.entries@.len(),
                forall|j: int| 0 <= j < i ==> #[trigger] self.entries@[j].account.updated_at <= now,
            decreases self.entries@.len() - i,
        {
            if self.entries[i].account.updated_at > now {
                proof { lemma_map_of_at(self.entries@, i as int); }
                return false;
            }
            i = i + 1;
        }
        assert forall|a: Seq<u8>| #[trigger] self@.contains_key(a) implies self@[a].updated_at <= now by {
            lemma_map_of_domain(self.entries@, a);
            let j = choose|j: int| 0 <= j < self.entries@.len() && #[trigger] self.entries@[j].address@ == a;
            lemma_map_of_at(self.entries@, j);
        }
        true
    }
}

proof fn lemma_map_of_len(s: Seq<Entry>)
    requires
        unique_addresses(s),
    ensures
        map_of(s).dom().finite(),
        map_of(s).len() == s.len(),
    decreases s.len(),
{
    if s.len() > 0 {
        let t = s.drop_last();
        assert(unique_addresses(t)) by {
            assert forall|x: int, y: int| 0 <= x < y < t.len() implies #[trigger] t[x].address@ != #[trigger] t[y].address@ by {
                assert(t[x] == s[x] && t[y] == s[y]);
            }
        }
        lemma_map_of_len(t);
        lemma_map_of_domain(t, s.last().address@);
        assert(!map_of(t).contains_key(s.last().address@)) by {
            if map_of(t).contains_key(s.last().address@) {
                let j = choose|j: int| 0 <= j < t.len() && #[trigger] t[j].address@ == s.last().address@;
                assert(s[j].address@ == s.last().address@);
            }
        }
    }
}

/// The accounts of a create: the signer, who becomes the record's owner.
#[derive(Clone, Copy, Debug)]
pub struct CreateDid {
    pub user: Key,
}

/// The accounts of an update: the signer, whose derived address locates the
/// record, and the owner the signer claims the record has.
#[derive(Clone, Copy, Debug)]
pub struct UpdateDid {
    pub user: Key,
    pub owner: Key,
}

/// The accounts of a delete: the signer, whose derived address locates the
/// record, and the owner the signer claims the record has.
#[derive(Clone, Copy, Debug)]
pub struct DeleteDid {
    pub user: Key,
    pub owner: Key,
}

/// The outcome of a create by `user`, and the records after it.
pub open spec fn create_spec(
    records: Records,
    program_id: Seq<u8>,
    user: Seq<u8>,
    username: Seq<char>,
    github: Seq<char>,
    twitter: Seq<char>,
    ipfs_hash: Seq<char>,
    now: i64,
) -> (Result<(), ErrorCode>, Records) {
    match did_address_of(user, program_id) {
        None => (Err(ErrorCode::AddressUnavailable), records),
        Some((a, bump)) => if records.contains_key(a) {
            (Err(ErrorCode::RecordAlreadyExists), records)
        } else if byte_len(username) == 0 {
            (Err(ErrorCode::UsernameEmpty), records)
        } else if byte_len(username) > MAX_USERNAME_LEN {
            (Err(ErrorCode::UsernameTooLong), records)
        } else if byte_len(github) > GITHUB_CAPACITY {
            (Err(ErrorCode::GithubTooLong), records)
        } else if byte_len(twitter) > TWITTER_CAPACITY {
            (Err(ErrorCode::TwitterTooLong), records)
        } else if byte_len(ipfs_hash) > IPFS_HASH_CAPACITY {
            (Err(ErrorCode::IpfsHashTooLong), records)
        } else {
            (
                Ok(()),
                records.insert(
                    a,
                    DidRecord {
                        owner: user,
                        username,
                        github,
                        twitter,
                        ipfs_hash,
                        created_at: now,
                        updated_at: now,
                        bump,
                    },
                ),
            )
        },
    }
}

/// The address of the record that `user` may change while claiming `owner` as
/// its owner, or why there is none.
pub open spec fn access_spec(
    records: Records,
    program_id: Seq<u8>,
    user: Seq<u8>,
    owner: Seq<u8>,
) -> Result<Seq<u8>, ErrorCode> {
    match did_address_of(user, program_id) {
        None => Err(ErrorCode::AddressUnavailable),
        Some((a, _)) => if !records.contains_key(a) {
            Err(ErrorCode::RecordNotFound)
        } else if records[a].owner != owner {
            Err(ErrorCode::Unauthorized)
        } else {
            Ok(a)
        },
    }
}

/// The outcome of an update by `user` claiming `owner`, and the records after it.
pub open spec fn update_spec(
    records: Records,
    program_id: Seq<u8>,
    user: Seq<u8>,
    owner: Seq<u8>,
    github: Option<Seq<char>>,
    twitter: Option<Seq<char>>,
    ipfs_hash: Option<Seq<char>>,
    now: i64,
) -> (Result<(), ErrorCode>, Records) {
    match access_spec(records, program_id, user, owner) {
        Err(e) => (Err(e), records),
        Ok(a) => match fields_error(github, twitter, ipfs_hash) {
            Some(e) => (Err(e), records),
            None => (
                Ok(()),
                records.insert(a, record_after_update(records[a], github, twitter, ipfs_hash, now)),
            ),
        },
    }
}

/// The outcome of a delete by `user` claiming `owner`, and the records after it.
pub open spec fn delete_spec(
    records: Records,
    program_id: Seq<u8>,
    user: Seq<u8>,
    owner: Seq<u8>,
) -> (Result<(), ErrorCode>, Records) {
    match access_spec(records, program_id, user, owner) {
        Err(e) => (Err(e), records),
        Ok(a) => (Ok(()), records.remove(a)),
    }
}

impl Registry {
    /// Locates the entry that `user` may change while claiming `owner`.
    fn locate(&self, user: &Key, owner: &Key) -> (r: Result<usize, ErrorCode>)
        requires
            self.wf(),
        ensures
            match access_spec(self@, self.program(), user@, owner@) {
                Ok(a) => r matches Ok(i) && i < self.entries@.len()
                    && self.entries@[i as int].address@ == a,
                Err(e) => r == Err::<usize, ErrorCode>(e),
            },
    {
        let address = match derive_did_address(user, &self.program_id) {
            Some((a, _)) => a,
            None => return Err(ErrorCode::AddressUnavailable),
        };
        match self.find(&address) {
            None => Err(ErrorCode::RecordNotFound),
            Some(i) => {
                if self.entries[i].account.owner.same_as(owner) {
                    Ok(i)
                } else {
                    Err(ErrorCode::Unauthorized)
                }
            },
        }
    }

    /// Adds an entry at an address that holds none.
    fn insert_new(&mut self, address: Key, account: DidAccount)
        requires
            old(self).storage_wf(),
            !old(self)@.contains_key(address@),
        ensures
            final(self).storage_wf(),
            final(self)@ == old(self)@.insert(address@, account@),
            final(self).program() == old(self).program(),
    {
        let ghost s = self.entries@;
        proof { lemma_map_of_domain(s, address@); }
        let e = Entry { address, account };
        self.entries.push(e);
        assert(self.entries@.drop_last() =~= s);
        assert(unique_addresses(self.entries@)) by {
            assert forall|x: int, y: int| 0 <= x < y < self.entries@.len()
                implies #[trigger] self.entries@[x].address@ != #[trigger] self.entries@[y].address@ by {
                if y == s.len() {
                    assert(self.entries@[x] == s[x]);
                } else {
                    assert(self.entries@[x] == s[x] && self.entries@[y] == s[y]);
                }
            }
        }
    }

    /// Removes the entry at index `i` and returns it.
    fn take(&mut self, i: usize) -> (r: Entry)
        requires
            old(self).storage_wf(),
            i < old(self).entries@.len(),
        ensures
            r == old(self).entries@[i as int],
            final(self).storage_wf(),
            final(self)@ == old(self)@.remove(r.address@),
            !final(self)@.contains_key(r.address@),
            old(self)@.contains_key(r.address@),
            old(self)@[r.address@] == r.account@,
            final(self).program() == old(self).program(),
    {
        proof {
            lemma_map_of_remove(self.entries@, i as int);
            lemma_map_of_at(self.entries@, i as int);
        }
        self.entries.remove(i)
    }
}

/// Creates the identity record of the signer at its derived address, stamped
/// with the clock reading `now`.
pub fn create_did(
    registry: &mut Registry,
    ctx: &CreateDid,
    username: String,
    github: String,
    twitter: String,
    ipfs_hash: String,
    now: i64,
) -> (r: Result<(), ErrorCode>)
    requires
        old(registry).wf(),
    ensures
        final(registry).wf(),
        final(registry).program() == old(registry).program(),
        (r, final(registry)@) == create_spec(
            old(registry)@,
            old(registry).program(),
            ctx.user@,
            username@,
            github@,
            twitter@,
            ipfs_hash@,
            now,
        ),
{
    let derived = derive_did_address(&ctx.user, &registry.program_id);
    let (address, bump) = match derived {
        Some(d) => d,
        None => return Err(ErrorCode::AddressUnavailable),
    };
    if registry.find(&address).is_some() {
        return Err(ErrorCode::RecordAlreadyExists);
    }
    check_username(&username)?;
    check_capacity(&github, GITHUB_CAPACITY, ErrorCode::GithubTooLong)?;
    check_capacity(&twitter, TWITTER_CAPACITY, ErrorCode::TwitterTooLong)?;
    check_capacity(&ipfs_hash, IPFS_HASH_CAPACITY, ErrorCode::IpfsHashTooLong)?;
    let account = DidAccount {
        owner: ctx.user,
        username,
        github,
        twitter,
        ipfs_hash,
        created_at: now,
        updated_at: now,
        bump,
    };
    registry.insert_new(address, account);
    Ok(())
}

/// Replaces each present field of the signer's record and sets its update
/// time to `now`, if the claimed owner is the stored one.
pub fn update_did(
    registry: &mut Registry,
    ctx: &UpdateDid,
    github: Option<String>,
    twitter: Option<String>,
    ipfs_hash: Option<String>,
    now: i64,
) -> (r: Result<(), ErrorCode>)
    requires
        old(registry).wf(),
        admits_time(old(registry)@, now),
    ensures
        final(registry).wf(),
        final(registry).program() == old(registry).program(),
        (r, final(registry)@) == update_spec(
            old(registry)@,
            old(registry).program(),
            ctx.user@,
            ctx.owner@,
            opt_view(github),
            opt_view(twitter),
            opt_view(ipfs_hash),
            now,
        ),
{
    let i = registry.locate(&ctx.user, &ctx.owner)?;
    check_fields(&github, &twitter, &ipfs_hash)?;
    let ghost before = registry@;
    let mut entry = registry.take(i);
    if let Some(gh) = github {
        entry.account.github = gh;
    }
    if let Some(tw) = twitter {
        entry.account.twitter = tw;
    }
    if let Some(ipfs) = ipfs_hash {
        entry.account.ipfs_hash = ipfs;
    }
    entry.account.updated_at = now;
    registry.insert_new(entry.address, entry.account);
    assert(registry@ =~= before.insert(
        entry.address@,
        record_after_update(before[entry.address@], opt_view(github), opt_view(twitter), opt_view(ipfs_hash), now),
    ));
    Ok(())
}

/// Removes the signer's record, if the claimed owner is the stored one.
pub fn delete_did(registry: &mut Registry, ctx: &DeleteDid) -> (r: Result<(), ErrorCode>)
    requires
        old(registry).wf(),
    ensures
        final(registry).wf(),
        final(registry).program() == old(registry).program(),
        (r, final(registry)@) == delete_spec(old(registry)@, old(registry).program(), ctx.user@, ctx.owner@),
{
    let i = registry.locate(&ctx.user, &ctx.owner)?;
    let _closed = registry.take(i);
    Ok(())
}

} // verus!
