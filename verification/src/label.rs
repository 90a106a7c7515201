//! Window labels.
//!
//! The label is the sole key under which the windowing host knows a ticket's
//! window: no registry of our own is kept, existence is always decided by
//! looking the label up in the host's live window set. The derivation is a
//! pure function of the identifier, and injective, so two different tickets
//! can never collide on one window.

use vstd::prelude::*;
use vstd::string::StringExecFns;

use crate::decimal::dec_digits;
use crate::decimal::lemma_dec_digits_injective;
use crate::decimal::push_decimal;

verus! {

/// The label a ticket's window carries: `ticket-` followed by the
/// identifier's decimal digits.
pub open spec fn label_of(ticket_id: u32) -> Seq<char> {
    "ticket-"@ + dec_digits(ticket_id as nat)
}

/// Derives the window label for `ticket_id`.
pub fn ticket_label(ticket_id: u32) -> (s: String)
    ensures
        s@ == label_of(ticket_id),
{
    let mut s = String::from_str("ticket-");
    push_decimal(&mut s, ticket_id);
    s
}

/// Two sequences with one prefix and equal sums have equal tails.
proof fn lemma_prefixed_cancel(p: Seq<char>, a: Seq<char>, b: Seq<char>)
    requires
        p + a == p + b,
    ensures
        a == b,
{
    assert(a =~= (p + a).subrange(p.len() as int, (p + a).len() as int));
    assert(b =~= (p + b).subrange(p.len() as int, (p + b).len() as int));
}

/// Label derivation is injective: distinct identifiers get distinct labels.
pub proof fn lemma_label_injective(a: u32, b: u32)
    requires
        a != b,
    ensures
        label_of(a) != label_of(b),
{
    if label_of(a) == label_of(b) {
        lemma_prefixed_cancel("ticket-"@, dec_digits(a as nat), dec_digits(b as nat));
        lemma_dec_digits_injective(a as nat, b as nat);
    }
}

} // verus!
