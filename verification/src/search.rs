//! The bare id-list response body.

use vstd::prelude::*;

use crate::json::{append_json_str, json_str_text};
use crate::text::{append_u64, dec_str};

verus! {

/// Decimal texts of the ids, comma-separated.
pub open spec fn id_list_text(ids: Seq<u32>) -> Seq<char>
    decreases ids.len(),
{
    if ids.len() == 0 {
        Seq::empty()
    } else if ids.len() == 1 {
        dec_str(ids.last() as nat)
    } else {
        id_list_text(ids.drop_last()) + seq![','] + dec_str(ids.last() as nat)
    }
}

/// `{"results":[...]}` over the ids.
pub open spec fn spec_results_text(ids: Seq<u32>) -> Seq<char> {
    seq!['{'] + json_str_text("results"@) + seq![':'] + seq!['['] + id_list_text(ids) + seq![']']
        + seq!['}']
}

/// A response that carries found ids and nothing else.
#[derive(Debug, Clone)]
pub struct SearchResult {
    pub results: Vec<u32>,
}

impl SearchResult {
    /// The JSON body of this response.
    #[verifier::loop_isolation(false)]
    pub fn to_json_string(&self) -> (r: String)
        ensures
            r@ == spec_results_text(self.results@),
    {
        proof {
            reveal_strlit("{");
            reveal_strlit("}");
            reveal_strlit("[");
            reveal_strlit("]");
            reveal_strlit(":");
            reveal_strlit(",");
        }
        let mut out = String::new();
        out.append("{");
        append_json_str(&mut out, "results");
        out.append(":");
        out.append("[");
        let ghost ids = self.results@;
        let ghost mid = out@;
        let mut i: usize = 0;
        while i < self.results.len()
            invariant
                i <= ids.len(),
                out@ == mid + id_list_text(ids.subrange(0, i as int)),
            decreases ids.len() - i,
        {
            if i > 0 {
                out.append(",");
            }
            append_u64(&mut out, self.results[i] as u64);
            proof {
                let cur = ids.subrange(0, i + 1);
                assert(cur.drop_last() =~= ids.subrange(0, i as int));
                assert(cur.last() == ids[i as int]);
                if i == 0 {
                    assert(id_list_text(cur) == dec_str(cur.last() as nat));
                }
                assert(out@ =~= mid + id_list_text(cur));
            }
            i = i + 1;
        }
        out.append("]");
        out.append("}");
        proof {
            assert(ids.subrange(0, ids.len() as int) =~= ids);
            assert(out@ =~= spec_results_text(ids));
        }
        out
    }
}

} // verus!
