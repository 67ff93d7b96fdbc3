//! Session identifiers: the text `sess_` followed by a stamp in decimal.
//!
//! Two different stamps never give the same identifier, which is what lets
//! the manager hand out identifiers that are never reused.

use vstd::prelude::*;
use crate::text::{append_decimal, decimal, lemma_decimal_injective};

verus! {

/// The identifier of the session that was given the stamp `stamp`.
pub open spec fn id_text(stamp: nat) -> Seq<char> {
    "sess_"@ + decimal(stamp)
}

/// Whether `id` is the identifier of some stamp below `bound`.
pub open spec fn issued_below(id: Seq<char>, bound: nat) -> bool {
    exists|stamp: nat| stamp < bound && id == #[trigger] id_text(stamp)
}

/// Two stamps with the same identifier are the same stamp.
pub proof fn lemma_id_text_injective(a: nat, b: nat)
    requires
        id_text(a) == id_text(b),
    ensures
        a == b,
{
    let prefix = "sess_"@;
    assert(decimal(a) =~= id_text(a).subrange(prefix.len() as int, id_text(a).len() as int));
    assert(decimal(b) =~= id_text(b).subrange(prefix.len() as int, id_text(b).len() as int));
    lemma_decimal_injective(a, b);
}

/// The identifier of the session that is given the stamp `stamp`.
pub fn session_id(stamp: u64) -> (id: String)
    ensures
        id@ == id_text(stamp as nat),
{
    let mut id = String::from_str("sess_");
    append_decimal(&mut id, stamp);
    id
}

} // verus!
