//! The protocol's laws, stated across the modules and proved.
//!
//! Each proof function here is a property a user of the crate can lean
//! on; together with [`crate::incr::lemma_incr_transfer_faithful`] they
//! cover how the two engines compose: what a TARGETS enumeration lists,
//! when a request is refused, why a cleared selection can never serve
//! stale bytes, and why concurrent INCR transfers cannot disturb one
//! another.

use vstd::prelude::*;
use crate::Atom;
use crate::event::SelectionRequestEvent;
use crate::owner::{answer_model, reply_spec, targets_reply_spec, IncrTransfer, ReplyModel};
use crate::store::{
    lemma_lookup_iff_offered, lookup_spec, offered_targets, offers_target, Offer,
};

verus! {

/// Law: the TARGETS answer enumerates exactly the offered
/// representations plus the TARGETS pseudo-target itself — one atom per
/// offer, order aside.
pub proof fn lemma_targets_reply_complete(entry: Seq<Offer>, targets_atom: Atom)
    ensures
        targets_reply_spec(entry, targets_atom).to_set() == offered_targets(entry).insert(
            targets_atom,
        ),
        targets_reply_spec(entry, targets_atom).len() == entry.len() + 1,
{
    let s = targets_reply_spec(entry, targets_atom);
    let m = entry.map_values(|o: Offer| o.target);
    assert forall|x: Atom| s.to_set().contains(x) implies offered_targets(entry).insert(
        targets_atom,
    ).contains(x) by {
        let i = choose|i: int| 0 <= i < s.len() && s[i] == x;
        if i > 0 {
            assert(m[i - 1] == x);
            assert(m.contains(x));
        }
    }
    assert forall|x: Atom| offered_targets(entry).insert(targets_atom).contains(x) implies s
        .to_set().contains(x) by {
        if x == targets_atom {
            assert(s[0] == x);
        } else {
            let i = choose|i: int| 0 <= i < m.len() && m[i] == x;
            assert(s[i + 1] == x);
        }
        assert(s.contains(x));
    }
    assert(s.to_set() =~= offered_targets(entry).insert(targets_atom));
}

/// Law: a target never offered for a selection is refused — the answer
/// carries no bytes at all, so a requestor gets an empty result (or, on
/// a mistyped wire reply, `UnexpectedType`), never another target's
/// bytes.
pub proof fn lemma_unoffered_target_refused(
    entry: Seq<Offer>,
    target: Atom,
    targets_atom: Atom,
    max_bytes: int,
)
    requires
        !offers_target(entry, target),
        target != targets_atom,
    ensures
        reply_spec(entry, target, targets_atom, max_bytes) is Refuse,
{
    lemma_lookup_iff_offered(entry, target);
}

/// Law: whenever the owner answers with bytes, they are the requested
/// target's own payload, delivered whole exactly when it fits a single
/// property write.
pub proof fn lemma_reply_serves_requested(
    entry: Seq<Offer>,
    target: Atom,
    targets_atom: Atom,
    max_bytes: int,
    value: Seq<u8>,
)
    requires
        lookup_spec(entry, target) == Some(value),
        target != targets_atom,
    ensures
        value.len() + 24 < max_bytes ==> reply_spec(entry, target, targets_atom, max_bytes)
            == (ReplyModel::Full { target, bytes: value }),
        value.len() + 24 >= max_bytes ==> reply_spec(entry, target, targets_atom, max_bytes)
            is IncrBegin,
{
}

/// Law: once a selection-clear for `S` has been handled, the store no
/// longer holds `S`, so the very next request for `S` is ignored — a
/// removed entry is never served to a late-arriving request.
pub proof fn lemma_no_stale_after_clear(
    contents: Map<Atom, Vec<Offer>>,
    e: SelectionRequestEvent,
    targets_atom: Atom,
    max_bytes: int,
)
    ensures
        answer_model(contents.remove(e.selection), e, targets_atom, max_bytes) is None,
{
}

/// Law: INCR transfers are isolated per destination property.  Whatever
/// one transfer's step does to the table — registering, advancing or
/// finishing the transfer at property `p` — the state of a concurrent
/// transfer at any other property `q` is untouched, so two independent
/// requestors of the same oversized value each see the full chunk
/// schedule and reassemble identical bytes.
pub proof fn lemma_transfer_isolation(
    transfers: Map<Atom, IncrTransfer>,
    p: Atom,
    q: Atom,
    t: IncrTransfer,
)
    requires
        p != q,
    ensures
        transfers.insert(p, t).contains_key(q) == transfers.contains_key(q),
        transfers.contains_key(q) ==> transfers.insert(p, t)[q] == transfers[q],
        transfers.remove(p).contains_key(q) == transfers.contains_key(q),
        transfers.contains_key(q) ==> transfers.remove(p)[q] == transfers[q],
{
}

} // verus!
