//! The grouping aggregator: given an ordered list of field names, each with
//! the JSON text of its value, build the JSON object text that becomes a
//! record's `body`.

use vstd::prelude::*;
use vstd::string::StringExecFns;

verus! {

/// The JSON text of one `"key":value` object member.
pub open spec fn spec_member_text(key: Seq<char>, value: Seq<char>) -> Seq<char> {
    "\""@ + key + "\":"@ + value
}

/// The comma-separated member list of a JSON object, in declared order.
pub open spec fn spec_members(entries: Seq<(Seq<char>, Seq<char>)>) -> Seq<char>
    decreases entries.len(),
{
    if entries.len() == 0 {
        Seq::<char>::empty()
    } else if entries.len() == 1 {
        spec_member_text(entries[0].0, entries[0].1)
    } else {
        spec_members(entries.drop_last()) + ","@ + spec_member_text(
            entries.last().0,
            entries.last().1,
        )
    }
}

/// The text of the JSON object whose members are exactly `entries`, in
/// declared order.
pub open spec fn spec_object_text(entries: Seq<(Seq<char>, Seq<char>)>) -> Seq<char> {
    "{"@ + spec_members(entries) + "}"@
}

/// The views of a list of (field name, value text) pairs.
pub open spec fn entries_view(es: Seq<(String, String)>) -> Seq<(Seq<char>, Seq<char>)> {
    es.map_values(|e: (String, String)| (e.0@, e.1@))
}

/// Build the JSON object text for `entries`: each entry contributes one
/// member whose name is the entry's first component and whose value is the
/// entry's second component, taken as JSON text that is already encoded.
pub fn build_body(entries: &Vec<(String, String)>) -> (r: String)
    ensures
        r@ == spec_object_text(entries_view(entries@)),
{
    let ghost ev = entries_view(entries@);
    let mut s: String = "{".to_owned();
    proof {
        assert(s@ =~= "{"@ + spec_members(ev.take(0)));
    }
    let n: usize = entries.len();
    let mut i: usize = 0;
    while i < n
        invariant
            n == entries@.len(),
            i <= n,
            ev == entries_view(entries@),
            s@ == "{"@ + spec_members(ev.take(i as int)),
        decreases n - i,
    {
        if i > 0 {
            s.append(",");
        }
        s.append("\"");
        s.append(entries[i].0.as_str());
        s.append("\":");
        s.append(entries[i].1.as_str());
        proof {
            assert(ev.take(i + 1).drop_last() =~= ev.take(i as int));
            assert(ev.take(i + 1).last() == ev[i as int]);
            assert(s@ =~= "{"@ + spec_members(ev.take(i + 1)));
        }
        i = i + 1;
    }
    proof {
        assert(ev.take(n as int) =~= ev);
    }
    s.append("}");
    s
}

} // verus!
