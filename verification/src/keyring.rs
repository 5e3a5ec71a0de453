//! The curated key-ring: a fixed list of records mapping DNS selector
//! names (`selector._domainkey.domain`) to DKIM public-key records. Keys
//! are provisioned ahead of time; nothing here performs discovery. The
//! signature verifier consults it through [`lookup_records`].
use crate::strutil::str_eq;
use vstd::prelude::*;

verus! {

/// The records provisioned under `name`, in provisioning order.
pub open spec fn spec_lookup(rs: Seq<(Seq<char>, Seq<char>)>, name: Seq<char>) -> Seq<Seq<char>>
    decreases rs.len(),
{
    if rs.len() == 0 {
        seq![]
    } else {
        let front = spec_lookup(rs.drop_last(), name);
        if rs.last().0 == name {
            front.push(rs.last().1)
        } else {
            front
        }
    }
}

/// Every record provisioned under the given name, in order; empty when
/// the name is not provisioned.
pub fn lookup_records(records: &Vec<(String, String)>, name: &str) -> (r: Vec<String>)
    ensures
        r.deep_view() == spec_lookup(records.deep_view(), name@),
{
    let mut out: Vec<String> = Vec::new();
    let mut i: usize = 0;
    proof {
        assert(records.deep_view().take(0) =~= Seq::<(Seq<char>, Seq<char>)>::empty());
        assert(out.deep_view() =~= spec_lookup(records.deep_view().take(0), name@));
    }
    while i < records.len()
        invariant
            0 <= i <= records@.len(),
            records.deep_view().len() == records@.len(),
            out.deep_view() == spec_lookup(records.deep_view().take(i as int), name@),
        decreases records@.len() - i,
    {
        let pair = &records[i];
        let ghost prev = out.deep_view();
        if str_eq(pair.0.as_str(), name) {
            out.push(pair.1.clone());
        }
        proof {
            let rs = records.deep_view();
            assert(rs[i as int] == records@[i as int].deep_view());
            assert(rs.take(i + 1).drop_last() =~= rs.take(i as int));
            assert(rs.take(i + 1).last() == rs[i as int]);
            if rs[i as int].0 == name@ {
                assert(out.deep_view() =~= prev.push(records@[i as int].1@));
            }
        }
        i = i + 1;
    }
    proof {
        assert(records.deep_view().take(records@.len() as int) =~= records.deep_view());
    }
    out
}

} // verus!
