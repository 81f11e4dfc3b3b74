//! Extraction of the two named ratio tables from the gateway's global option
//! list.
//!
//! The scan is tolerant: an entry whose value is not a JSON object is passed
//! over, and the slot stays absent unless a later entry for the same name
//! parses. Of several parsable entries for one name, the last wins.

use vstd::prelude::*;
use crate::table::{KeyValue, RatioTable, json_object_entries, parse_ratio_table};

verus! {

/// The option list as pairs of character sequences.
pub open spec fn options_view(options: Seq<KeyValue>) -> Seq<(Seq<char>, Seq<char>)> {
    options.map_values(|e: KeyValue| e@)
}

/// The table a scan of the options yields for entries named `name`: the last
/// entry with that name whose value parses as a JSON object, if any.
pub open spec fn scan_options(s: Seq<(Seq<char>, Seq<char>)>, name: Seq<char>) -> Option<
    Seq<(Seq<char>, Seq<char>)>,
>
    decreases s.len(),
{
    if s.len() == 0 {
        None
    } else if s.last().0 == name && json_object_entries(s.last().1) is Some {
        json_object_entries(s.last().1)
    } else {
        scan_options(s.drop_last(), name)
    }
}

/// The slot holds exactly what the scan yields.
pub open spec fn slot_matches(o: Option<RatioTable>, scanned: Option<Seq<(Seq<char>, Seq<char>)>>) -> bool {
    match o {
        Some(t) => t.wf() && Some(t@) == scanned,
        None => scanned is None,
    }
}

/// Scans the option list once for the `CompletionRatio` and `ModelRatio`
/// tables.
#[verifier::loop_isolation(false)]
pub fn extract_tables(options: &Vec<KeyValue>) -> (r: (Option<RatioTable>, Option<RatioTable>))
    ensures
        slot_matches(r.0, scan_options(options_view(options@), "CompletionRatio"@)),
        slot_matches(r.1, scan_options(options_view(options@), "ModelRatio"@)),
{
    proof {
        reveal_strlit("CompletionRatio");
        reveal_strlit("ModelRatio");
        assert("CompletionRatio"@.len() == 15);
        assert("ModelRatio"@.len() == 10);
        assert("CompletionRatio"@ != "ModelRatio"@);
    }
    let completion_key: String = String::from_str("CompletionRatio");
    let model_key: String = String::from_str("ModelRatio");
    let mut completion: Option<RatioTable> = None;
    let mut model: Option<RatioTable> = None;
    let n: usize = options.len();
    let ghost ov = options_view(options@);
    let mut i: usize = 0;
    while i < n
        invariant
            i <= n,
            n == options@.len(),
            slot_matches(completion, scan_options(ov.take(i as int), "CompletionRatio"@)),
            slot_matches(model, scan_options(ov.take(i as int), "ModelRatio"@)),
        decreases n - i,
    {
        proof {
            assert(ov[i as int] == options@[i as int]@);
        }
        if options[i].key.eq(&completion_key) {
            match parse_ratio_table(options[i].value.as_str()) {
                Some(t) => {
                    completion = Some(t);
                }
                None => {}
            }
        } else if options[i].key.eq(&model_key) {
            match parse_ratio_table(options[i].value.as_str()) {
                Some(t) => {
                    model = Some(t);
                }
                None => {}
            }
        }
        i = i + 1;
        proof {
            assert(ov.take(i as int).drop_last() =~= ov.take(i as int - 1));
            assert(ov.take(i as int).last() == ov[i as int - 1]);
        }
    }
    proof {
        assert(ov.take(n as int) =~= ov);
    }
    (completion, model)
}

} // verus!
