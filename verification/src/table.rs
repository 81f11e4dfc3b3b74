//! Ratio tables: the library's model of a gateway pricing table.
//!
//! A [`RatioTable`] is an ordered list of key/value entries with distinct
//! keys, the parsed form of a JSON object. Each value is kept as the raw
//! compact JSON text of the entry's value, so that re-serializing a table
//! reproduces every untouched entry exactly.

use vstd::prelude::*;
use vstd::pervasive::VecAdditionalExecFns;
use crate::text::{json_string, push_json_string, push_range, chars_of};

verus! {

/// One key/value pair: an entry of the gateway's global option list, and
/// also an entry of a parsed ratio table (the value then being the raw JSON
/// text of the entry's value).
#[derive(Debug)]
pub struct KeyValue {
    pub key: String,
    pub value: String,
}

impl View for KeyValue {
    type V = (Seq<char>, Seq<char>);

    open spec fn view(&self) -> (Seq<char>, Seq<char>) {
        (self.key@, self.value@)
    }
}

impl Clone for KeyValue {
    fn clone(&self) -> (r: Self)
        ensures
            r@ == self@,
    {
        KeyValue { key: self.key.clone(), value: self.value.clone() }
    }
}

/// A parsed ratio table.
#[derive(Debug)]
pub struct RatioTable {
    pub entries: Vec<KeyValue>,
}

/// The keys of the entry sequence are pairwise distinct.
pub open spec fn table_wf(t: Seq<(Seq<char>, Seq<char>)>) -> bool {
    forall|i: int, j: int| 0 <= i < j < t.len() ==> t[i].0 != t[j].0
}

impl View for RatioTable {
    type V = Seq<(Seq<char>, Seq<char>)>;

    open spec fn view(&self) -> Seq<(Seq<char>, Seq<char>)> {
        self.entries@.map_values(|e: KeyValue| e@)
    }
}

impl Clone for RatioTable {
    fn clone(&self) -> (r: Self)
        ensures
            r@ == self@,
    {
        let mut entries: Vec<KeyValue> = Vec::new();
        let mut i: usize = 0;
        while i < self.entries.len()
            invariant
                i <= self.entries@.len(),
                entries@.len() == i,
                forall|j: int| 0 <= j < i ==> entries@[j]@ == self.entries@[j]@,
            decreases self.entries@.len() - i,
        {
            entries.push(self.entries[i].clone());
            i = i + 1;
        }
        proof {
            assert(entries@.map_values(|e: KeyValue| e@) =~= self@);
        }
        RatioTable { entries }
    }
}

impl RatioTable {
    pub open spec fn wf(self) -> bool {
        table_wf(self@)
    }
}

/// The value under key `k`, if any: the first entry with that key.
pub open spec fn entry_of(t: Seq<(Seq<char>, Seq<char>)>, k: Seq<char>) -> Option<Seq<char>>
    decreases t.len(),
{
    if t.len() == 0 {
        None
    } else if t[0].0 == k {
        Some(t[0].1)
    } else {
        entry_of(t.skip(1), k)
    }
}

/// The sequence with the first entry keyed `k` replaced by `(k, v)`, or with
/// `(k, v)` appended when no entry has that key.
pub open spec fn with_entry(
    t: Seq<(Seq<char>, Seq<char>)>,
    k: Seq<char>,
    v: Seq<char>,
) -> Seq<(Seq<char>, Seq<char>)>
    decreases t.len(),
{
    if t.len() == 0 {
        seq![(k, v)]
    } else if t[0].0 == k {
        seq![(k, v)] + t.skip(1)
    } else {
        seq![t[0]] + with_entry(t.skip(1), k, v)
    }
}

/// Updating one key leaves the value under that key, and no other.
pub proof fn lemma_with_entry_same(t: Seq<(Seq<char>, Seq<char>)>, k: Seq<char>, v: Seq<char>)
    ensures
        entry_of(with_entry(t, k, v), k) == Some(v),
    decreases t.len(),
{
    if t.len() == 0 {
    } else if t[0].0 == k {
        assert((seq![(k, v)] + t.skip(1))[0] == (k, v));
    } else {
        lemma_with_entry_same(t.skip(1), k, v);
        assert((seq![t[0]] + with_entry(t.skip(1), k, v)).skip(1) =~= with_entry(t.skip(1), k, v));
    }
}

/// Every key other than the one updated keeps its value: the dominant merge
/// invariant.
pub proof fn lemma_with_entry_other(
    t: Seq<(Seq<char>, Seq<char>)>,
    k: Seq<char>,
    v: Seq<char>,
    k2: Seq<char>,
)
    requires
        k2 != k,
    ensures
        entry_of(with_entry(t, k, v), k2) == entry_of(t, k2),
    decreases t.len(),
{
    if t.len() == 0 {
        assert(with_entry(t, k, v) == seq![(k, v)]);
        assert(entry_of(seq![(k, v)], k2) == entry_of(seq![(k, v)].skip(1), k2));
        assert(seq![(k, v)].skip(1).len() == 0);
    } else if t[0].0 == k {
        let r = seq![(k, v)] + t.skip(1);
        assert(with_entry(t, k, v) == r);
        assert(r[0] == (k, v));
        assert(r.skip(1) =~= t.skip(1));
        assert(entry_of(r, k2) == entry_of(t.skip(1), k2));
        assert(entry_of(t, k2) == entry_of(t.skip(1), k2));
    } else {
        lemma_with_entry_other(t.skip(1), k, v, k2);
        let r = seq![t[0]] + with_entry(t.skip(1), k, v);
        assert(with_entry(t, k, v) == r);
        assert(r[0] == t[0]);
        assert(r.skip(1) =~= with_entry(t.skip(1), k, v));
        if t[0].0 == k2 {
            assert(entry_of(r, k2) == Some(t[0].1));
            assert(entry_of(t, k2) == Some(t[0].1));
        } else {
            assert(entry_of(r, k2) == entry_of(with_entry(t.skip(1), k, v), k2));
            assert(entry_of(t, k2) == entry_of(t.skip(1), k2));
        }
    }
}

/// Updating a key preserves well-formedness.
pub proof fn lemma_with_entry_wf(t: Seq<(Seq<char>, Seq<char>)>, k: Seq<char>, v: Seq<char>)
    requires
        table_wf(t),
    ensures
        table_wf(with_entry(t, k, v)),
    decreases t.len(),
{
    if t.len() == 0 {
    } else if t[0].0 == k {
        let r = seq![(k, v)] + t.skip(1);
        assert forall|i: int, j: int| 0 <= i < j < r.len() implies r[i].0 != r[j].0 by {
            assert(r[j] == t[j]);
            if i > 0 {
                assert(r[i] == t[i]);
            }
        }
    } else {
        lemma_with_entry_wf(t.skip(1), k, v);
        let w = with_entry(t.skip(1), k, v);
        let r = seq![t[0]] + w;
        lemma_with_entry_keys(t.skip(1), k, v);
        assert forall|i: int, j: int| 0 <= i < j < r.len() implies r[i].0 != r[j].0 by {
            if i > 0 {
                assert(w[i - 1].0 != w[j - 1].0);
            } else {
                assert(r[j].0 == w[j - 1].0);
            }
        }
    }
}

/// Each key of the updated sequence is `k` or a key of the input sequence.
pub proof fn lemma_with_entry_keys(t: Seq<(Seq<char>, Seq<char>)>, k: Seq<char>, v: Seq<char>)
    ensures
        forall|i: int|
            0 <= i < with_entry(t, k, v).len() ==> #[trigger] with_entry(t, k, v)[i].0 == k
                || exists|j: int| 0 <= j < t.len() && t[j].0 == #[trigger] with_entry(t, k, v)[i].0,
    decreases t.len(),
{
    if t.len() == 0 {
    } else if t[0].0 == k {
        let r = seq![(k, v)] + t.skip(1);
        assert forall|i: int| 0 <= i < r.len() && r[i].0 != k implies exists|j: int|
            0 <= j < t.len() && t[j].0 == r[i].0 by {
            assert(r[i] == t[i]);
        }
    } else {
        lemma_with_entry_keys(t.skip(1), k, v);
        let w = with_entry(t.skip(1), k, v);
        let r = seq![t[0]] + w;
        assert forall|i: int| 0 <= i < r.len() && r[i].0 != k implies exists|j: int|
            0 <= j < t.len() && t[j].0 == r[i].0 by {
            if i == 0 {
                assert(t[0].0 == r[0].0);
            } else {
                assert(r[i] == w[i - 1]);
                let j0 = choose|j0: int| 0 <= j0 < t.skip(1).len() && t.skip(1)[j0].0 == w[i - 1].0;
                if w[i - 1].0 != k {
                    assert(t[j0 + 1].0 == r[i].0);
                }
            }
        }
    }
}

impl RatioTable {
    /// Sets the value under `k`, replacing in place or appending.
    #[verifier::loop_isolation(false)]
    pub fn set_value(&mut self, k: &String, v: &String)
        ensures
            final(self)@ == with_entry(old(self)@, k@, v@),
    {
        let ghost t0 = old(self)@;
        let n: usize = self.entries.len();
        let mut i: usize = 0;
        while i < n
            invariant
                i <= n,
                n == self.entries@.len(),
                self@ == t0,
                forall|j: int| 0 <= j < i ==> t0[j].0 != k@,
            decreases n - i,
        {
            proof {
                assert(t0[i as int] == self.entries@[i as int]@);
            }
            if self.entries[i].key.eq(k) {
                self.entries.set(i, KeyValue { key: k.clone(), value: v.clone() });
                proof {
                    assert(t0[i as int].0 == k@);
                    assert(self@ =~~= t0.update(i as int, (k@, v@)));
                    lemma_with_entry_update(t0, k@, v@, i as int);
                }
                return ;
            }
            i = i + 1;
        }
        self.entries.push(KeyValue { key: k.clone(), value: v.clone() });
        proof {
            assert(self@ =~= t0.push((k@, v@)));
            lemma_with_entry_append(t0, k@, v@);
        }
    }
}

/// When the first entry keyed `k` stands at `i`, the update is a point
/// update of the sequence.
pub proof fn lemma_with_entry_update(
    t: Seq<(Seq<char>, Seq<char>)>,
    k: Seq<char>,
    v: Seq<char>,
    i: int,
)
    requires
        0 <= i < t.len(),
        t[i].0 == k,
        forall|j: int| 0 <= j < i ==> t[j].0 != k,
    ensures
        with_entry(t, k, v) == t.update(i, (k, v)),
    decreases t.len(),
{
    if i == 0 {
        assert(with_entry(t, k, v) =~= t.update(0, (k, v)));
    } else {
        assert(t.skip(1)[i - 1].0 == k);
        assert(forall|j: int| 0 <= j < i - 1 ==> #[trigger] t.skip(1)[j].0 != k);
        lemma_with_entry_update(t.skip(1), k, v, i - 1);
        assert(seq![t[0]] + t.skip(1).update(i - 1, (k, v)) =~= t.update(i, (k, v)));
    }
}

/// When no entry has key `k`, the update appends.
pub proof fn lemma_with_entry_append(t: Seq<(Seq<char>, Seq<char>)>, k: Seq<char>, v: Seq<char>)
    requires
        forall|j: int| 0 <= j < t.len() ==> t[j].0 != k,
    ensures
        with_entry(t, k, v) == t.push((k, v)),
    decreases t.len(),
{
    if t.len() == 0 {
        assert(with_entry(t, k, v) =~= t.push((k, v)));
    } else {
        assert(forall|j: int| 0 <= j < t.skip(1).len() ==> #[trigger] t.skip(1)[j].0 != k);
        lemma_with_entry_append(t.skip(1), k, v);
        assert(seq![t[0]] + t.skip(1).push((k, v)) =~= t.push((k, v)));
    }
}

/// One serialized entry: a JSON string literal for the key, a colon, and the
/// raw value text.
pub open spec fn entry_chars(e: (Seq<char>, Seq<char>)) -> Seq<char> {
    json_string(e.0) + seq![':'] + e.1
}

/// The serialized entries, comma-separated.
pub open spec fn entries_chars(t: Seq<(Seq<char>, Seq<char>)>) -> Seq<char>
    decreases t.len(),
{
    if t.len() == 0 {
        Seq::empty()
    } else if t.len() == 1 {
        entry_chars(t[0])
    } else {
        entries_chars(t.drop_last()) + seq![','] + entry_chars(t.last())
    }
}

/// The compact JSON text of the whole object.
pub open spec fn json_object(t: Seq<(Seq<char>, Seq<char>)>) -> Seq<char> {
    seq!['{'] + entries_chars(t) + seq!['}']
}

/// Appends the compact JSON text of the table.
pub fn push_json_object(v: &mut Vec<char>, t: &RatioTable)
    ensures
        final(v)@ == old(v)@ + json_object(t@),
{
    v.push('{');
    let n: usize = t.entries.len();
    let mut i: usize = 0;
    while i < n
        invariant
            i <= n,
            n == t.entries@.len(),
            v@ == old(v)@ + seq!['{'] + entries_chars(t@.take(i as int)),
        decreases n - i,
    {
        if i > 0 {
            v.push(',');
        }
        let kc = chars_of(t.entries[i].key.as_str());
        push_json_string(v, &kc);
        v.push(':');
        let vc = chars_of(t.entries[i].value.as_str());
        push_range(v, &vc, 0, vc.len());
        proof {
            assert(vc@.subrange(0, vc@.len() as int) =~= vc@);
        }
        i = i + 1;
        proof {
            let tv = t@;
            assert(tv.take(i as int).drop_last() =~= tv.take(i as int - 1));
            assert(tv.take(i as int).last() == tv[i as int - 1]);
            if i == 1 {
                assert(tv.take(1)[0] == tv[0]);
                assert(entries_chars(tv.take(1)) == entry_chars(tv[0]));
            }
            assert(v@ =~= old(v)@ + seq!['{'] + entries_chars(tv.take(i as int)));
        }
    }
    v.push('}');
    proof {
        assert(t@.take(t@.len() as int) =~= t@);
        assert(v@ =~= old(v)@ + json_object(t@));
    }
}

/// What parsing a candidate ratio table yields: `None` where the text is not
/// a JSON object, else the object's entries with each value as its raw
/// compact JSON text.
pub uninterp spec fn json_object_entries(s: Seq<char>) -> Option<Seq<(Seq<char>, Seq<char>)>>;

/// Relies on `serde_json::from_str` at `serde_json::Map<String, Value>`,
/// which succeeds exactly on JSON objects and yields a map with distinct
/// keys in a deterministic order, and on `serde_json::Value::to_string` for
/// the compact text of each value; both depend on the input alone.
#[verifier::external_body]
fn parse_object(s: &str) -> (r: Option<Vec<KeyValue>>)
    ensures
        match r {
            Some(v) => json_object_entries(s@) == Some(v@.map_values(|e: KeyValue| e@))
                && table_wf(v@.map_values(|e: KeyValue| e@)),
            None => json_object_entries(s@) is None,
        },
{
    match serde_json::from_str::<serde_json::Map<String, serde_json::Value>>(s) {
        Ok(m) => Some(
            m.into_iter().map(|(key, value)| KeyValue { key, value: value.to_string() }).collect(),
        ),
        Err(_) => None,
    }
}

/// Parses the JSON text of a ratio table, or reports that it is not a JSON
/// object.
pub fn parse_ratio_table(s: &str) -> (r: Option<RatioTable>)
    ensures
        match r {
            Some(t) => json_object_entries(s@) == Some(t@) && t.wf(),
            None => json_object_entries(s@) is None,
        },
{
    match parse_object(s) {
        Some(entries) => Some(RatioTable { entries }),
        None => None,
    }
}

} // verus!
