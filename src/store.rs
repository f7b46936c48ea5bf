//! The encrypted record store: the records of all secrets, the invariant that
//! key names and identifiers are unique, lookups, search, and the decisions of
//! schema evolution (version checks, legacy records, leftover tables).
//!
//! A record whose per-secret salt is not 32 bytes comes from the legacy scheme:
//! its value is sealed directly under the master key. Every other record is
//! sealed under the key derived from the master key, its `(app_name, key_name)`
//! context and its salt.

use vstd::prelude::*;
use vstd::string::StringSliceAdditionalSpecFns;
use vstd::string::StringExecFns;
use vstd::utf8::encode_utf8;

use crate::crypto::{all_zero, decryption_of, secret_key_derivable, secret_key_of, EncryptedData};
use crate::error::VaultError;

verus! {

/// The schema version that this library writes.
pub const SCHEMA_VERSION: i64 = 2;

/// The version of a store that records none.
pub const LEGACY_SCHEMA_VERSION: i64 = 1;

/// A secret as stored: metadata, sealed value and per-secret salt. Times are
/// seconds since the Unix epoch.
#[derive(Debug, Clone)]
pub struct SecretRecord {
    pub id: String,
    pub app_name: Option<String>,
    pub key_name: String,
    pub api_url: Option<String>,
    pub description: Option<String>,
    pub encrypted: EncryptedData,
    pub key_salt: Vec<u8>,
    pub created_at: i64,
    pub updated_at: i64,
}

/// The characters of an optional text.
pub open spec fn opt_text(s: Option<String>) -> Option<Seq<char>> {
    match s {
        Some(t) => Some(t@),
        None => None,
    }
}

/// The app name as it enters the encryption context and lookups: empty when absent.
pub open spec fn app_ctx(app_name: Option<String>) -> Seq<char> {
    match app_name {
        Some(a) => a@,
        None => Seq::empty(),
    }
}

/// The record is found by the pair `(app, key)`.
pub open spec fn has_names(rec: SecretRecord, app: Seq<char>, key: Seq<char>) -> bool {
    app_ctx(rec.app_name) == app && rec.key_name@ == key
}

/// The record carries a per-secret salt: 32 bytes, not all zero. Any other salt
/// (absent, or the all-zero marker) marks a legacy record.
pub open spec fn has_proper_salt(rec: SecretRecord) -> bool {
    rec.key_salt@.len() == 32 && !all_zero(rec.key_salt@)
}

/// The key that the record's value is sealed under, given the master key.
pub open spec fn record_key(master: Seq<u8>, rec: SecretRecord) -> Seq<u8> {
    if has_proper_salt(rec) {
        secret_key_of(master, app_ctx(rec.app_name), rec.key_name@, rec.key_salt@)
    } else {
        master
    }
}

/// The record's key can be derived.
pub open spec fn record_key_derivable(master: Seq<u8>, rec: SecretRecord) -> bool {
    !has_proper_salt(rec) || secret_key_derivable(master, app_ctx(rec.app_name), rec.key_name@)
}

/// The plaintext bytes of the record's value under the master key; `None` when
/// they cannot be recovered.
pub open spec fn stored_value(master: Seq<u8>, rec: SecretRecord) -> Option<Seq<u8>> {
    if record_key_derivable(master, rec) {
        decryption_of(record_key(master, rec), rec.encrypted)
    } else {
        None
    }
}

/// No two records share a key name (key names are unique across all apps).
pub open spec fn unique_key_names(recs: Seq<SecretRecord>) -> bool {
    forall|i: int, j: int|
        0 <= i < recs.len() && 0 <= j < recs.len() && i != j ==> #[trigger] recs[i].key_name@
            != #[trigger] recs[j].key_name@
}

/// No two records share an identifier.
pub open spec fn unique_ids(recs: Seq<SecretRecord>) -> bool {
    forall|i: int, j: int|
        0 <= i < recs.len() && 0 <= j < recs.len() && i != j ==> #[trigger] recs[i].id@
            != #[trigger] recs[j].id@
}

/// The store's invariant.
pub open spec fn records_wf(recs: Seq<SecretRecord>) -> bool {
    unique_key_names(recs) && unique_ids(recs)
}

/// Some record has this key name.
pub open spec fn key_name_taken(recs: Seq<SecretRecord>, key: Seq<char>) -> bool {
    exists|i: int| 0 <= i < recs.len() && #[trigger] recs[i].key_name@ == key
}

/// Some record has this identifier.
pub open spec fn id_taken(recs: Seq<SecretRecord>, id: Seq<char>) -> bool {
    exists|i: int| 0 <= i < recs.len() && #[trigger] recs[i].id@ == id
}

/// An ASCII upper-case letter made lower case; every other byte unchanged.
pub open spec fn fold_byte(b: u8) -> u8 {
    if 0x41 <= b <= 0x5a {
        (b + 0x20) as u8
    } else {
        b
    }
}

/// `needle` occurs in `hay` at `i`, ignoring ASCII case.
pub open spec fn occurs_at(hay: Seq<u8>, needle: Seq<u8>, i: int) -> bool {
    &&& 0 <= i
    &&& i + needle.len() <= hay.len()
    &&& forall|j: int| 0 <= j < needle.len() ==> fold_byte(#[trigger] hay[i + j]) == fold_byte(needle[j])
}

/// `needle` occurs somewhere in `hay`, ignoring ASCII case.
pub open spec fn contains_folded(hay: Seq<u8>, needle: Seq<u8>) -> bool {
    exists|i: int| #[trigger] occurs_at(hay, needle, i)
}

/// An optional text contains the query.
pub open spec fn opt_contains(s: Option<String>, query: Seq<u8>) -> bool {
    match s {
        Some(t) => contains_folded(encode_utf8(t@), query),
        None => false,
    }
}

/// The record matches a search: its app name, key name or description contains
/// the query's bytes, ignoring ASCII case.
pub open spec fn matches_query(rec: SecretRecord, query: Seq<u8>) -> bool {
    ||| opt_contains(rec.app_name, query)
    ||| contains_folded(encode_utf8(rec.key_name@), query)
    ||| opt_contains(rec.description, query)
}

/// The records among the first `n` that match the query, in order.
pub open spec fn matching(recs: Seq<SecretRecord>, query: Seq<u8>, n: int) -> Seq<SecretRecord>
    decreases n,
{
    if n <= 0 {
        Seq::empty()
    } else {
        let before = matching(recs, query, n - 1);
        if matches_query(recs[n - 1], query) {
            before.push(recs[n - 1])
        } else {
            before
        }
    }
}

/// Whether a text equals a string slice.
pub(crate) fn text_eq(a: &String, b: &str) -> (r: bool)
    ensures
        r == (a@ == b@),
{
    let other = String::from_str(b);
    *a == other
}

/// Whether an optional text's lookup form equals `q`.
pub(crate) fn app_ctx_eq(app_name: &Option<String>, q: &str) -> (r: bool)
    ensures
        r == (app_ctx(*app_name) == q@),
{
    match app_name {
        Some(a) => text_eq(a, q),
        None => {
            let e = q.is_empty();
            proof {
                if e {
                    assert(q@ =~= Seq::<char>::empty());
                }
            }
            e
        },
    }
}

/// Whether two optional texts are equal.
pub(crate) fn opt_text_eq(a: &Option<String>, b: &Option<String>) -> (r: bool)
    ensures
        r == (opt_text(*a) == opt_text(*b)),
{
    match (a, b) {
        (Some(x), Some(y)) => *x == *y,
        (None, None) => true,
        _ => false,
    }
}

/// A copy of an optional text.
pub(crate) fn clone_opt(a: &Option<String>) -> (r: Option<String>)
    ensures
        r == *a,
{
    match a {
        Some(s) => Some(s.clone()),
        None => None,
    }
}

/// Whether `needle` occurs in `hay`, ignoring ASCII case.
pub fn contains_ignore_ascii_case(hay: &[u8], needle: &[u8]) -> (r: bool)
    ensures
        r == contains_folded(hay@, needle@),
{
    let h = hay.len();
    let n = needle.len();
    if n > h {
        assert forall|i: int| !occurs_at(hay@, needle@, i) by {}
        return false;
    }
    let mut i: usize = 0;
    while i <= h - n
        invariant
            h == hay@.len(),
            n == needle@.len(),
            n <= h,
            i <= h - n + 1,
            forall|k: int| 0 <= k < i ==> !#[trigger] occurs_at(hay@, needle@, k),
        decreases h - n + 1 - i,
    {
        let mut j: usize = 0;
        let mut same = true;
        while j < n
            invariant_except_break
                same,
            invariant
                h == hay@.len(),
                n == needle@.len(),
                i + n <= h,
                j <= n,
                forall|m: int| 0 <= m < j ==> fold_byte(#[trigger] hay@[i + m]) == fold_byte(needle@[m]),
            ensures
                same ==> forall|m: int| 0 <= m < n ==> fold_byte(#[trigger] hay@[i + m]) == fold_byte(needle@[m]),
                !same ==> j < n && fold_byte(hay@[i + j]) != fold_byte(needle@[j as int]),
            decreases n - j,
        {
            let a = hay[i + j];
            let b = needle[j];
            let fa: u8 = if 0x41 <= a && a <= 0x5a { a + 0x20 } else { a };
            let fb: u8 = if 0x41 <= b && b <= 0x5a { b + 0x20 } else { b };
            if fa != fb {
                same = false;
                break;
            }
            j = j + 1;
        }
        if same {
            assert(occurs_at(hay@, needle@, i as int));
            return true;
        }
        assert(!occurs_at(hay@, needle@, i as int)) by {
            assert(fold_byte(hay@[i + j]) != fold_byte(needle@[j as int]));
        }
        i = i + 1;
    }
    assert forall|k: int| !occurs_at(hay@, needle@, k) by {
        if 0 <= k < i {
        }
    }
    false
}

/// Whether an optional text contains the query, ignoring ASCII case.
fn opt_contains_exec(s: &Option<String>, query: &str) -> (r: bool)
    ensures
        r == opt_contains(*s, query.spec_bytes()),
{
    match s {
        Some(t) => contains_ignore_ascii_case(t.as_str().as_bytes(), query.as_bytes()),
        None => false,
    }
}

/// Whether a record matches a search query.
pub fn record_matches(rec: &SecretRecord, query: &str) -> (r: bool)
    ensures
        r == matches_query(*rec, query.spec_bytes()),
{
    opt_contains_exec(&rec.app_name, query) || contains_ignore_ascii_case(
        rec.key_name.as_str().as_bytes(),
        query.as_bytes(),
    ) || opt_contains_exec(&rec.description, query)
}

/// The records of all secrets, with unique key names and unique identifiers.
pub struct VaultStore {
    records: Vec<SecretRecord>,
}

impl View for VaultStore {
    type V = Seq<SecretRecord>;

    closed spec fn view(&self) -> Seq<SecretRecord> {
        self.records@
    }
}

impl VaultStore {
    /// An empty store.
    pub fn new() -> (r: VaultStore)
        ensures
            r@ == Seq::<SecretRecord>::empty(),
    {
        VaultStore { records: Vec::new() }
    }

    /// A store over loaded records; `Database` when two share a key name or an identifier.
    pub fn from_records(records: Vec<SecretRecord>) -> (r: Result<VaultStore, VaultError>)
        ensures
            r is Ok <==> records_wf(records@),
            r matches Ok(s) ==> s@ == records@,
            r matches Err(e) ==> e is Database,
    {
        let n = records.len();
        let mut i: usize = 0;
        while i < n
            invariant
                n == records@.len(),
                i <= n,
                forall|a: int, b: int|
                    0 <= a < i && 0 <= b < n && a != b ==> #[trigger] records@[a].key_name@
                        != #[trigger] records@[b].key_name@,
                forall|a: int, b: int|
                    0 <= a < i && 0 <= b < n && a != b ==> #[trigger] records@[a].id@
                        != #[trigger] records@[b].id@,
            decreases n - i,
        {
            let mut j: usize = 0;
            while j < n
                invariant
                    n == records@.len(),
                    i < n,
                    j <= n,
                    forall|a: int, b: int|
                        0 <= a < i && 0 <= b < n && a != b ==> #[trigger] records@[a].key_name@
                            != #[trigger] records@[b].key_name@,
                    forall|a: int, b: int|
                        0 <= a < i && 0 <= b < n && a != b ==> #[trigger] records@[a].id@
                            != #[trigger] records@[b].id@,
                    forall|b: int|
                        0 <= b < j && b != i ==> records@[i as int].key_name@
                            != #[trigger] records@[b].key_name@,
                    forall|b: int|
                        0 <= b < j && b != i ==> records@[i as int].id@ != #[trigger] records@[b].id@,
                decreases n - j,
            {
                if j != i {
                    let same_name = records[i].key_name == records[j].key_name;
                    let same_id = records[i].id == records[j].id;
                    if same_name || same_id {
                        assert(!records_wf(records@)) by {
                            if same_name {
                                assert(records@[i as int].key_name@ == records@[j as int].key_name@);
                            } else {
                                assert(records@[i as int].id@ == records@[j as int].id@);
                            }
                        }
                        return Err(
                            VaultError::Database(
                                String::from_str("stored records repeat a key name or an identifier"),
                            ),
                        );
                    }
                }
                j = j + 1;
            }
            i = i + 1;
        }
        Ok(VaultStore { records })
    }

    /// The records, for persisting and listing.
    pub fn records(&self) -> (r: &Vec<SecretRecord>)
        ensures
            r@ == self@,
    {
        &self.records
    }

    /// How many records there are.
    pub fn len(&self) -> (r: usize)
        ensures
            r == self@.len(),
    {
        self.records.len()
    }

    /// The position of the record with this identifier.
    pub fn position_by_id(&self, id: &str) -> (r: Option<usize>)
        ensures
            r matches Some(i) ==> i < self@.len() && self@[i as int].id@ == id@,
            r is None ==> !id_taken(self@, id@),
    {
        let mut i: usize = 0;
        while i < self.records.len()
            invariant
                i <= self@.len(),
                self@ == self.records@,
                forall|k: int| 0 <= k < i ==> #[trigger] self@[k].id@ != id@,
            decreases self@.len() - i,
        {
            if text_eq(&self.records[i].id, id) {
                return Some(i);
            }
            i = i + 1;
        }
        None
    }

    /// The position of the record with this key name.
    pub fn position_by_key_name(&self, key_name: &str) -> (r: Option<usize>)
        ensures
            r matches Some(i) ==> i < self@.len() && self@[i as int].key_name@ == key_name@,
            r is None ==> !key_name_taken(self@, key_name@),
    {
        let mut i: usize = 0;
        while i < self.records.len()
            invariant
                i <= self@.len(),
                self@ == self.records@,
                forall|k: int| 0 <= k < i ==> #[trigger] self@[k].key_name@ != key_name@,
            decreases self@.len() - i,
        {
            if text_eq(&self.records[i].key_name, key_name) {
                return Some(i);
            }
            i = i + 1;
        }
        None
    }

    /// The position of the record found by `(app_name, key_name)`; an empty
    /// `app_name` also finds a record without one.
    pub fn position_by_names(&self, app_name: &str, key_name: &str) -> (r: Option<usize>)
        ensures
            r matches Some(i) ==> i < self@.len() && has_names(self@[i as int], app_name@, key_name@),
            r is None ==> forall|k: int| 0 <= k < self@.len() ==> !has_names(#[trigger] self@[k], app_name@, key_name@),
    {
        let mut i: usize = 0;
        while i < self.records.len()
            invariant
                i <= self@.len(),
                self@ == self.records@,
                forall|k: int| 0 <= k < i ==> !has_names(#[trigger] self@[k], app_name@, key_name@),
            decreases self@.len() - i,
        {
            let rec = &self.records[i];
            if text_eq(&rec.key_name, key_name) && app_ctx_eq(&rec.app_name, app_name) {
                return Some(i);
            }
            i = i + 1;
        }
        None
    }

    /// Adds a record. `DuplicateKey` when its key name is taken, `Database` when
    /// its identifier is; then nothing changes.
    pub fn insert(&mut self, rec: SecretRecord) -> (r: Result<(), VaultError>)
        requires
            records_wf(old(self)@),
        ensures
            records_wf(final(self)@),
            key_name_taken(old(self)@, rec.key_name@) ==> (r matches Err(e) && e is DuplicateKey),
            !key_name_taken(old(self)@, rec.key_name@) && id_taken(old(self)@, rec.id@) ==> (r matches Err(e) && e is Database),
            r is Ok <==> !key_name_taken(old(self)@, rec.key_name@) && !id_taken(old(self)@, rec.id@),
            r is Ok ==> final(self)@ == old(self)@.push(rec),
            r is Err ==> final(self)@ == old(self)@,
    {
        if let Some(_) = self.position_by_key_name(rec.key_name.as_str()) {
            let app = match &rec.app_name {
                Some(a) => a.as_str(),
                None => "",
            };
            return Err(VaultError::duplicate_key(app, rec.key_name.as_str()));
        }
        if let Some(_) = self.position_by_id(rec.id.as_str()) {
            return Err(VaultError::Database(String::from_str("identifier already in use")));
        }
        self.records.push(rec);
        Ok(())
    }

    /// Replaces the record at `i` by one with the same identifier. `DuplicateKey`
    /// when another record holds the new key name; then nothing changes.
    pub fn replace(&mut self, i: usize, rec: SecretRecord) -> (r: Result<(), VaultError>)
        requires
            records_wf(old(self)@),
            i < old(self)@.len(),
            rec.id@ == old(self)@[i as int].id@,
        ensures
            records_wf(final(self)@),
            r is Ok <==> forall|k: int| 0 <= k < old(self)@.len() && k != i ==> #[trigger] old(self)@[k].key_name@ != rec.key_name@,
            r is Ok ==> final(self)@ == old(self)@.update(i as int, rec),
            r matches Err(e) ==> e is DuplicateKey && final(self)@ == old(self)@,
    {
        match self.position_by_key_name(rec.key_name.as_str()) {
            Some(j) => {
                if j != i {
                    let app = match &rec.app_name {
                        Some(a) => a.as_str(),
                        None => "",
                    };
                    return Err(VaultError::duplicate_key(app, rec.key_name.as_str()));
                }
            },
            None => {},
        }
        self.records.set(i, rec);
        Ok(())
    }

    /// Replaces every record by one with the same identifier and key name.
    pub fn replace_all(&mut self, records: Vec<SecretRecord>)
        requires
            records_wf(old(self)@),
            records@.len() == old(self)@.len(),
            forall|i: int|
                0 <= i < records@.len() ==> #[trigger] records@[i].id@ == old(self)@[i].id@
                    && records@[i].key_name@ == old(self)@[i].key_name@,
        ensures
            records_wf(final(self)@),
            final(self)@ == records@,
    {
        assert forall|i: int, j: int|
            0 <= i < records@.len() && 0 <= j < records@.len() && i != j implies #[trigger] records@[i].key_name@
            != #[trigger] records@[j].key_name@ && records@[i].id@ != records@[j].id@ by {
            assert(records@[i].id@ == old(self)@[i].id@);
            assert(records@[j].id@ == old(self)@[j].id@);
            assert(old(self)@[i].key_name@ != old(self)@[j].key_name@);
            assert(old(self)@[i].id@ != old(self)@[j].id@);
        }
        self.records = records;
    }

    /// Removes and returns the record at `i`.
    pub fn remove(&mut self, i: usize) -> (r: SecretRecord)
        requires
            records_wf(old(self)@),
            i < old(self)@.len(),
        ensures
            records_wf(final(self)@),
            r == old(self)@[i as int],
            final(self)@ == old(self)@.remove(i as int),
    {
        self.records.remove(i)
    }
}

/// What opening a store requires.
#[derive(Debug, Clone, Copy, PartialEq, Eq, Structural)]
pub enum SchemaPlan {
    /// The store is at the current version.
    Current,
    /// The store is older: back it up (unless `backup` is false) and migrate it.
    Migrate { from_version: i64, backup: bool },
}

/// What opening a store at `stored` (none recorded: the legacy version) requires.
pub open spec fn schema_plan_of(stored: Option<i64>, in_memory: bool) -> Option<SchemaPlan> {
    let v = match stored {
        Some(v) => v,
        None => LEGACY_SCHEMA_VERSION,
    };
    if v > SCHEMA_VERSION {
        None
    } else if v == SCHEMA_VERSION {
        Some(SchemaPlan::Current)
    } else {
        Some(SchemaPlan::Migrate { from_version: v, backup: !in_memory })
    }
}

/// Decides how to open a store whose recorded schema version is `stored`.
///
/// A newer store is refused with `IncompatibleVersion` (it is never downgraded);
/// an older one is migrated, after a backup unless the store is in memory.
pub fn plan_schema(stored: Option<i64>, in_memory: bool) -> (r: Result<SchemaPlan, VaultError>)
    ensures
        schema_plan_of(stored, in_memory) matches Some(p) ==> r == Ok::<SchemaPlan, VaultError>(p),
        schema_plan_of(stored, in_memory) is None ==> (r matches Err(VaultError::IncompatibleVersion { db_version, app_version })
            && Some(db_version) == stored && app_version == SCHEMA_VERSION),
{
    let v = match stored {
        Some(v) => v,
        None => LEGACY_SCHEMA_VERSION,
    };
    if v > SCHEMA_VERSION {
        Err(VaultError::IncompatibleVersion { db_version: v, app_version: SCHEMA_VERSION })
    } else if v == SCHEMA_VERSION {
        Ok(SchemaPlan::Current)
    } else {
        Ok(SchemaPlan::Migrate { from_version: v, backup: !in_memory })
    }
}

/// Whether a table is left over from an interrupted migration and is dropped on open.
pub fn is_orphaned_table(name: &str) -> (r: bool)
    ensures
        r == (name@ == "api_keys_new"@ || name@ == "api_keys_v2"@),
{
    let s = String::from_str(name);
    text_eq(&s, "api_keys_new") || text_eq(&s, "api_keys_v2")
}

/// A table whose columns (by name) lack the per-secret salt column holds
/// legacy records.
pub fn lacks_salt_column(columns: &Vec<String>) -> (r: bool)
    ensures
        r == forall|i: int| 0 <= i < columns@.len() ==> #[trigger] columns@[i]@ != "key_salt"@,
{
    let mut i: usize = 0;
    while i < columns.len()
        invariant
            i <= columns@.len(),
            forall|k: int| 0 <= k < i ==> #[trigger] columns@[k]@ != "key_salt"@,
        decreases columns@.len() - i,
    {
        if text_eq(&columns[i], "key_salt") {
            return false;
        }
        i = i + 1;
    }
    true
}

/// A record of the legacy schema brought to the current one: the same metadata
/// and sealed value, and no per-secret salt, which marks it for re-encryption.
pub fn migrate_legacy_record(
    id: String,
    app_name: String,
    key_name: String,
    api_url: Option<String>,
    description: Option<String>,
    encrypted: EncryptedData,
    created_at: i64,
    updated_at: i64,
) -> (r: SecretRecord)
    ensures
        r.id == id,
        r.app_name == Some(app_name),
        r.key_name == key_name,
        r.api_url == api_url,
        r.description == description,
        r.encrypted == encrypted,
        r.key_salt@.len() == 0,
        !has_proper_salt(r),
        r.created_at == created_at,
        r.updated_at == updated_at,
{
    SecretRecord {
        id,
        app_name: Some(app_name),
        key_name,
        api_url,
        description,
        encrypted,
        key_salt: Vec::new(),
        created_at,
        updated_at,
    }
}

} // verus!
