//! The shared log: a grow-only set of strings that every node replicates.
//!
//! The set itself is `crdts::GSet<String>`. Verus sees it through
//! [`log_entries`], the set of strings it holds, and through the
//! contracts below, which say what each operation of the outside crate
//! does to that set. Its JSON forms are produced and read by
//! `serde_json`; the contracts name those forms and claim two things of
//! them: a log always has both forms, and what was written reads back as
//! the same set.

use crdts::CvRDT;
use crdts::GSet;
use vstd::prelude::*;
use crate::text::texts;

verus! {

/// `crdts::GSet`, the grow-only set that holds the shared log.
#[verifier::external_type_specification]
#[verifier::external_body]
#[verifier::reject_recursive_types(T)]
pub struct ExGSet<T: Ord>(GSet<T>);

/// The entries that a log holds.
pub uninterp spec fn log_entries(log: GSet<String>) -> Set<Seq<char>>;

/// The compact JSON that `serde_json::to_vec` writes for a log with these
/// entries, the payload that travels between nodes.
pub uninterp spec fn log_wire_encoding(entries: Set<Seq<char>>) -> Seq<u8>;

/// The entries that `serde_json::from_slice` reads from a payload; `None`
/// where the payload is not the JSON of a log.
pub uninterp spec fn log_wire_decoding(payload: Seq<u8>) -> Option<Set<Seq<char>>>;

/// The indented JSON that `serde_json::to_string_pretty` writes for a log
/// with these entries, the text of a snapshot file.
pub uninterp spec fn log_file_encoding(entries: Set<Seq<char>>) -> Seq<char>;

/// The entries that `serde_json::from_str` reads from the text of a
/// snapshot file; `None` where the text is not the JSON of a log.
pub uninterp spec fn log_file_decoding(text: Seq<char>) -> Option<Set<Seq<char>>>;

/// The entries of two logs merged: every entry of either.
pub open spec fn merged(x: Set<Seq<char>>, y: Set<Seq<char>>) -> Set<Seq<char>> {
    x.union(y)
}

/// Whether `a` comes before `b` in the order of `String`: character by
/// character, by code point, a proper prefix first.
pub open spec fn text_before(a: Seq<char>, b: Seq<char>) -> bool
    decreases a.len(),
{
    if b.len() == 0 {
        false
    } else if a.len() == 0 {
        true
    } else if a[0] != b[0] {
        (a[0] as u32) < (b[0] as u32)
    } else {
        text_before(a.drop_first(), b.drop_first())
    }
}

/// Whether each text comes before its successor.
pub open spec fn ascending(items: Seq<Seq<char>>) -> bool {
    forall|i: int, j: int| 0 <= i < j < items.len() ==> text_before(items[i], items[j])
}

/// The entries of a log as a list: each entry once, in ascending order.
pub open spec fn log_listing(entries: Set<Seq<char>>) -> Seq<Seq<char>> {
    choose|items: Seq<Seq<char>>| ascending(items) && items.to_set() == entries
}

/// Of two texts, at most one comes before the other, and none comes
/// before itself.
pub proof fn lemma_text_before_is_strict(a: Seq<char>, b: Seq<char>)
    ensures
        !(text_before(a, b) && text_before(b, a)),
        !text_before(a, a),
    decreases a.len(),
{
    if a.len() > 0 {
        lemma_text_before_is_strict(a.drop_first(), a.drop_first());
        if b.len() > 0 && a[0] == b[0] {
            lemma_text_before_is_strict(a.drop_first(), b.drop_first());
        }
    }
}

/// An ascending list is told by the set of its items: two ascending
/// lists of the same items are the same list.
pub proof fn lemma_ascending_is_unique(a: Seq<Seq<char>>, b: Seq<Seq<char>>)
    requires
        ascending(a),
        ascending(b),
        a.to_set() == b.to_set(),
    ensures
        a == b,
    decreases a.len(),
{
    if a.len() == 0 || b.len() == 0 {
        if a.len() > 0 {
            assert(a.contains(a[0]));
            assert(b.to_set().contains(a[0]));
        }
        if b.len() > 0 {
            assert(b.contains(b[0]));
            assert(a.to_set().contains(b[0]));
        }
        assert(a =~= b);
    } else {
        assert(a.contains(a[0]));
        assert(b.to_set().contains(a[0]));
        assert(b.contains(b[0]));
        assert(a.to_set().contains(b[0]));
        let j = choose|j: int| 0 <= j < b.len() && b[j] == a[0];
        let i = choose|i: int| 0 <= i < a.len() && a[i] == b[0];
        lemma_text_before_is_strict(a[0], b[0]);
        assert(a[0] == b[0]);
        let ta = a.drop_first();
        let tb = b.drop_first();
        assert forall|e: Seq<char>| ta.to_set().contains(e) <==> tb.to_set().contains(e) by {
            lemma_text_before_is_strict(e, e);
            if ta.contains(e) {
                let k = choose|k: int| 0 <= k < ta.len() && ta[k] == e;
                assert(a[k + 1] == e);
                assert(a.contains(e));
                assert(b.to_set().contains(e));
                let m = choose|m: int| 0 <= m < b.len() && b[m] == e;
                assert(text_before(a[0], a[k + 1]));
                assert(tb[m - 1] == e);
            }
            if tb.contains(e) {
                let k = choose|k: int| 0 <= k < tb.len() && tb[k] == e;
                assert(b[k + 1] == e);
                assert(b.contains(e));
                assert(a.to_set().contains(e));
                let m = choose|m: int| 0 <= m < a.len() && a[m] == e;
                assert(text_before(b[0], b[k + 1]));
                assert(ta[m - 1] == e);
            }
        }
        assert(ta.to_set() =~= tb.to_set());
        assert forall|x: int, y: int| 0 <= x < y < ta.len() implies text_before(ta[x], ta[y]) by {
            assert(text_before(a[x + 1], a[y + 1]));
        }
        assert forall|x: int, y: int| 0 <= x < y < tb.len() implies text_before(tb[x], tb[y]) by {
            assert(text_before(b[x + 1], b[y + 1]));
        }
        lemma_ascending_is_unique(ta, tb);
        assert(a =~= seq![a[0]] + ta);
        assert(b =~= seq![b[0]] + tb);
    }
}

/// An ascending list of a log's entries is the listing of the log.
pub proof fn lemma_listing(items: Seq<Seq<char>>, entries: Set<Seq<char>>)
    requires
        ascending(items),
        items.to_set() == entries,
    ensures
        items == log_listing(entries),
{
    lemma_ascending_is_unique(items, log_listing(entries));
}

/// `GSet::new`: a log without entries.
#[verifier::external_body]
pub(crate) fn empty_log() -> (log: GSet<String>)
    ensures
        log_entries(log) == Set::<Seq<char>>::empty(),
{
    GSet::new()
}

/// `GSet::insert`: the entry joins the log and nothing leaves it.
#[verifier::external_body]
pub(crate) fn log_insert(log: &mut GSet<String>, entry: String)
    ensures
        log_entries(*final(log)) == log_entries(*old(log)).insert(entry@),
{
    log.insert(entry)
}

/// `GSet::merge`: the log becomes the union of both logs.
#[verifier::external_body]
pub(crate) fn log_merge(log: &mut GSet<String>, other: GSet<String>)
    ensures
        log_entries(*final(log)) == merged(log_entries(*old(log)), log_entries(other)),
{
    log.merge(other)
}

/// `GSet::read`, handed out as a vector: every entry once, in the
/// ascending order in which the underlying `BTreeSet` is walked.
#[verifier::external_body]
pub(crate) fn log_items(log: &GSet<String>) -> (items: Vec<String>)
    ensures
        texts(items@).to_set() == log_entries(*log),
        ascending(texts(items@)),
{
    log.read().into_iter().collect()
}

/// `serde_json::to_vec` on a log. Writing a set of strings into a vector
/// does not fail: there is a payload, it is the one named by
/// [`log_wire_encoding`], and `serde_json::from_slice` reads the log's
/// entries back from it.
#[verifier::external_body]
pub(crate) fn wire_encode(log: &GSet<String>) -> (r: Option<Vec<u8>>)
    ensures
        r is Some,
        r matches Some(payload) ==> payload@ == log_wire_encoding(log_entries(*log)),
        r matches Some(payload) ==> log_wire_decoding(payload@) == Some(log_entries(*log)),
{
    serde_json::to_vec(log).ok()
}

/// `serde_json::from_slice` for a log: the entries named by
/// [`log_wire_decoding`], or `None` where it names none.
#[verifier::external_body]
pub(crate) fn wire_decode(payload: &[u8]) -> (r: Option<GSet<String>>)
    ensures
        match r {
            Some(log) => log_wire_decoding(payload@) == Some(log_entries(log)),
            None => log_wire_decoding(payload@) is None,
        },
{
    serde_json::from_slice(payload).ok()
}

/// `serde_json::to_string_pretty` on a log. Writing a set of strings into
/// a string does not fail: there is a text, it is the one named by
/// [`log_file_encoding`], and `serde_json::from_str` reads the log's
/// entries back from it.
#[verifier::external_body]
pub(crate) fn file_encode(log: &GSet<String>) -> (r: Option<String>)
    ensures
        r is Some,
        r matches Some(text) ==> text@ == log_file_encoding(log_entries(*log)),
        r matches Some(text) ==> log_file_decoding(text@) == Some(log_entries(*log)),
{
    serde_json::to_string_pretty(log).ok()
}

/// `serde_json::from_str` for a log: the entries named by
/// [`log_file_decoding`], or `None` where it names none.
#[verifier::external_body]
pub(crate) fn file_decode(text: &str) -> (r: Option<GSet<String>>)
    ensures
        match r {
            Some(log) => log_file_decoding(text@) == Some(log_entries(log)),
            None => log_file_decoding(text@) is None,
        },
{
    serde_json::from_str(text).ok()
}

} // verus!
