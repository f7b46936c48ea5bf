//! The listing order of secrets: by app name, then key name, each compared byte
//! by byte on its UTF-8 text (the order of SQLite's binary collation), with
//! secrets without an app name first.

use vstd::prelude::*;
use vstd::multiset::Multiset;
use vstd::utf8::encode_utf8;

use crate::store::{opt_text, SecretRecord};

verus! {

/// Byte-wise lexicographic comparison: negative, zero or positive.
pub open spec fn bytes_cmp(a: Seq<u8>, b: Seq<u8>) -> int
    decreases a.len(),
{
    if a.len() == 0 {
        if b.len() == 0 {
            0
        } else {
            -1
        }
    } else if b.len() == 0 {
        1
    } else if a[0] < b[0] {
        -1
    } else if a[0] > b[0] {
        1
    } else {
        bytes_cmp(a.drop_first(), b.drop_first())
    }
}

/// Comparison of optional texts: absent first, then by UTF-8 bytes.
pub open spec fn opt_cmp(a: Option<Seq<char>>, b: Option<Seq<char>>) -> int {
    match (a, b) {
        (None, None) => 0,
        (None, Some(_)) => -1,
        (Some(_), None) => 1,
        (Some(x), Some(y)) => bytes_cmp(encode_utf8(x), encode_utf8(y)),
    }
}

/// Comparison of `(app name, key name)` pairs: by app name, then by key name.
pub open spec fn names_cmp(
    a_app: Option<Seq<char>>,
    a_key: Seq<char>,
    b_app: Option<Seq<char>>,
    b_key: Seq<char>,
) -> int {
    let c = opt_cmp(a_app, b_app);
    if c != 0 {
        c
    } else {
        bytes_cmp(encode_utf8(a_key), encode_utf8(b_key))
    }
}

/// The listing order of two records.
pub open spec fn record_cmp(a: SecretRecord, b: SecretRecord) -> int {
    names_cmp(opt_text(a.app_name), a.key_name@, opt_text(b.app_name), b.key_name@)
}

proof fn lemma_bytes_antisym(a: Seq<u8>, b: Seq<u8>)
    ensures
        bytes_cmp(a, b) == -bytes_cmp(b, a),
    decreases a.len(),
{
    if a.len() > 0 && b.len() > 0 && a[0] == b[0] {
        lemma_bytes_antisym(a.drop_first(), b.drop_first());
    }
}

proof fn lemma_bytes_trans(a: Seq<u8>, b: Seq<u8>, c: Seq<u8>)
    requires
        bytes_cmp(a, b) <= 0,
        bytes_cmp(b, c) <= 0,
    ensures
        bytes_cmp(a, c) <= 0,
    decreases a.len(),
{
    if a.len() > 0 && b.len() > 0 && c.len() > 0 && a[0] == b[0] && b[0] == c[0] {
        lemma_bytes_trans(a.drop_first(), b.drop_first(), c.drop_first());
    }
}

proof fn lemma_opt_antisym(a: Option<Seq<char>>, b: Option<Seq<char>>)
    ensures
        opt_cmp(a, b) == -opt_cmp(b, a),
{
    if a is Some && b is Some {
        lemma_bytes_antisym(encode_utf8(a->0), encode_utf8(b->0));
    }
}

proof fn lemma_opt_trans(a: Option<Seq<char>>, b: Option<Seq<char>>, c: Option<Seq<char>>)
    requires
        opt_cmp(a, b) <= 0,
        opt_cmp(b, c) <= 0,
    ensures
        opt_cmp(a, c) <= 0,
{
    if a is Some && b is Some && c is Some {
        lemma_bytes_trans(encode_utf8(a->0), encode_utf8(b->0), encode_utf8(c->0));
    }
}

/// The listing order is antisymmetric.
pub proof fn lemma_names_antisym(
    a_app: Option<Seq<char>>,
    a_key: Seq<char>,
    b_app: Option<Seq<char>>,
    b_key: Seq<char>,
)
    ensures
        names_cmp(a_app, a_key, b_app, b_key) == -names_cmp(b_app, b_key, a_app, a_key),
{
    lemma_opt_antisym(a_app, b_app);
    lemma_bytes_antisym(encode_utf8(a_key), encode_utf8(b_key));
}

/// The listing order is transitive.
pub proof fn lemma_names_trans(
    a_app: Option<Seq<char>>,
    a_key: Seq<char>,
    b_app: Option<Seq<char>>,
    b_key: Seq<char>,
    c_app: Option<Seq<char>>,
    c_key: Seq<char>,
)
    requires
        names_cmp(a_app, a_key, b_app, b_key) <= 0,
        names_cmp(b_app, b_key, c_app, c_key) <= 0,
    ensures
        names_cmp(a_app, a_key, c_app, c_key) <= 0,
{
    lemma_opt_antisym(a_app, b_app);
    lemma_opt_antisym(b_app, c_app);
    lemma_opt_antisym(a_app, c_app);
    lemma_opt_trans(a_app, b_app, c_app);
    if opt_cmp(a_app, c_app) == 0 {
        lemma_opt_trans(c_app, a_app, b_app);
        lemma_opt_trans(b_app, c_app, a_app);
        lemma_bytes_trans(encode_utf8(a_key), encode_utf8(b_key), encode_utf8(c_key));
    }
}

/// Compares two byte strings in the listing order.
pub fn compare_bytes(a: &[u8], b: &[u8]) -> (r: i8)
    ensures
        r as int == bytes_cmp(a@, b@),
{
    let mut i: usize = 0;
    assert(a@.subrange(0, a@.len() as int) =~= a@);
    assert(b@.subrange(0, b@.len() as int) =~= b@);
    while i < a.len() && i < b.len()
        invariant
            i <= a@.len(),
            i <= b@.len(),
            bytes_cmp(a@, b@) == bytes_cmp(a@.subrange(i as int, a@.len() as int), b@.subrange(i as int, b@.len() as int)),
        decreases a@.len() - i,
    {
        if a[i] < b[i] {
            return -1;
        }
        if a[i] > b[i] {
            return 1;
        }
        assert(a@.subrange(i as int, a@.len() as int).drop_first() =~= a@.subrange(i + 1, a@.len() as int));
        assert(b@.subrange(i as int, b@.len() as int).drop_first() =~= b@.subrange(i + 1, b@.len() as int));
        i = i + 1;
    }
    if i < a.len() {
        1
    } else if i < b.len() {
        -1
    } else {
        0
    }
}

/// Compares two optional texts in the listing order.
fn compare_opt(a: &Option<String>, b: &Option<String>) -> (r: i8)
    ensures
        r as int == opt_cmp(opt_text(*a), opt_text(*b)),
{
    match (a, b) {
        (None, None) => 0,
        (None, Some(_)) => -1,
        (Some(_), None) => 1,
        (Some(x), Some(y)) => compare_bytes(x.as_str().as_bytes(), y.as_str().as_bytes()),
    }
}

/// Compares two records in the listing order.
pub fn compare_records(a: &SecretRecord, b: &SecretRecord) -> (r: i8)
    ensures
        r as int == record_cmp(*a, *b),
{
    let c = compare_opt(&a.app_name, &b.app_name);
    if c != 0 {
        c
    } else {
        compare_bytes(a.key_name.as_str().as_bytes(), b.key_name.as_str().as_bytes())
    }
}

/// The positions `candidates`, reordered so that their records come in the listing
/// order: every candidate appears exactly as often as in the input.
pub fn sort_positions(records: &Vec<SecretRecord>, candidates: Vec<usize>) -> (r: Vec<usize>)
    requires
        forall|m: int| 0 <= m < candidates@.len() ==> #[trigger] candidates@[m] < records@.len(),
    ensures
        r@.len() == candidates@.len(),
        forall|k: int| 0 <= k < r@.len() ==> #[trigger] r@[k] < records@.len(),
        r@.to_multiset() == candidates@.to_multiset(),
        forall|k: int, l: int|
            0 <= k < l < r@.len() ==> record_cmp(records@[#[trigger] r@[k] as int], records@[#[trigger] r@[l] as int]) <= 0,
{
    let mut remaining = candidates;
    let mut out: Vec<usize> = Vec::new();
    let ghost total = remaining@.to_multiset();
    proof {
        broadcast use vstd::seq_lib::group_to_multiset_ensures, vstd::multiset::group_multiset_axioms;

    }
    while remaining.len() > 0
        invariant
            forall|m: int| 0 <= m < remaining@.len() ==> #[trigger] remaining@[m] < records@.len(),
            forall|k: int| 0 <= k < out@.len() ==> #[trigger] out@[k] < records@.len(),
            out@.to_multiset().add(remaining@.to_multiset()) == total,
            total == candidates@.to_multiset(),
            forall|k: int, l: int|
                0 <= k < l < out@.len() ==> record_cmp(records@[#[trigger] out@[k] as int], records@[#[trigger] out@[l] as int]) <= 0,
            forall|k: int, m: int|
                0 <= k < out@.len() && 0 <= m < remaining@.len() ==> record_cmp(records@[#[trigger] out@[k] as int], records@[#[trigger] remaining@[m] as int]) <= 0,
        decreases remaining@.len(),
    {
        let mut best: usize = 0;
        let mut j: usize = 1;
        proof {
            let r0 = records@[remaining@[0] as int];
            lemma_names_antisym(opt_text(r0.app_name), r0.key_name@, opt_text(r0.app_name), r0.key_name@);
        }
        while j < remaining.len()
            invariant
                0 < remaining@.len(),
                best < remaining@.len(),
                1 <= j <= remaining@.len(),
                forall|m: int| 0 <= m < remaining@.len() ==> #[trigger] remaining@[m] < records@.len(),
                forall|m: int| 0 <= m < j ==> record_cmp(records@[remaining@[best as int] as int], records@[#[trigger] remaining@[m] as int]) <= 0,
            decreases remaining@.len() - j,
        {
            let c = compare_records(&records[remaining[j]], &records[remaining[best]]);
            proof {
                let rj = records@[remaining@[j as int] as int];
                let rb = records@[remaining@[best as int] as int];
                lemma_names_antisym(opt_text(rj.app_name), rj.key_name@, opt_text(rb.app_name), rb.key_name@);
            }
            if c < 0 {
                proof {
                    let rj = records@[remaining@[j as int] as int];
                    let rb = records@[remaining@[best as int] as int];
                    assert forall|m: int| 0 <= m < j + 1 implies record_cmp(rj, records@[#[trigger] remaining@[m] as int]) <= 0 by {
                        let rm = records@[remaining@[m] as int];
                        lemma_names_antisym(opt_text(rj.app_name), rj.key_name@, opt_text(rj.app_name), rj.key_name@);
                        if m < j {
                            lemma_names_trans(opt_text(rj.app_name), rj.key_name@, opt_text(rb.app_name), rb.key_name@, opt_text(rm.app_name), rm.key_name@);
                        }
                    }
                }
                best = j;
            }
            j = j + 1;
        }
        let ghost before = remaining@;
        let ghost out_before = out@;
        let chosen = remaining.remove(best);
        out.push(chosen);
        proof {
            broadcast use vstd::seq_lib::group_to_multiset_ensures, vstd::multiset::group_multiset_axioms;

            assert(remaining@ == before.remove(best as int));
            assert(out@ == out_before.push(chosen));
            assert(before.to_multiset().contains(chosen));
            assert(out@.to_multiset().add(remaining@.to_multiset()) =~= out_before.to_multiset().add(
                before.to_multiset(),
            ));
            assert forall|m: int| 0 <= m < remaining@.len() implies #[trigger] remaining@[m] == (
                if m < best {
                    before[m]
                } else {
                    before[m + 1]
                }) by {}
        }
    }
    proof {
        broadcast use vstd::seq_lib::group_to_multiset_ensures, vstd::multiset::group_multiset_axioms;

        assert(remaining@.to_multiset() =~= Multiset::<usize>::empty());
        assert(out@.to_multiset() =~= out@.to_multiset().add(remaining@.to_multiset()));
        assert(out@.len() == out@.to_multiset().len());
        assert(candidates@.len() == candidates@.to_multiset().len());
    }
    out
}

} // verus!
