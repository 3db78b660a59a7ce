//! What holds of the commands taken together.

use vstd::prelude::*;

use crate::commands::add_spec;
use crate::commands::dec_spec;
use crate::commands::get_spec;
use crate::commands::inc_spec;
use crate::commands::integer_at;
use crate::commands::set_spec;
use crate::commands::Outcome;
use crate::error::ErrorKind;
use crate::keyspace::StoredView;
use crate::radix::is_canonical;
use crate::radix::is_literal;
use crate::radix::lemma_canonical_is_fixed;
use crate::radix::lemma_normalized;
use crate::radix::literal_value;
use crate::radix::normalized;
use crate::radix::valid_radix;

verus! {

/// Setting a key to a literal and getting it in the same radix answers the
/// literal in normal form: the same value, written canonically. A literal
/// that is canonical already is answered letter for letter. This holds for
/// every accepted radix, every literal of it, and every key that is not
/// bound to a value of another kind.
pub proof fn law_set_then_get(
    space: Map<Seq<char>, StoredView>,
    key: Seq<char>,
    text: Seq<char>,
    radix: int,
)
    requires
        valid_radix(radix),
        is_literal(text, radix),
        !(space.contains_key(key) && space[key] is Native),
    ensures
        set_spec(space, key, text, radix) matches Ok(stored) && get_spec(stored.space, key, radix)
            == Ok::<Outcome, ErrorKind>(
            Outcome { space: stored.space, reply: Some(normalized(text, radix)) },
        ),
        is_canonical(normalized(text, radix), radix),
        literal_value(normalized(text, radix), radix) == literal_value(text, radix),
        is_canonical(text, radix) ==> normalized(text, radix) == text,
{
    lemma_normalized(text, radix);
    if is_canonical(text, radix) {
        lemma_canonical_is_fixed(text, radix);
    }
}

/// Incrementing a key and then decrementing it leaves the key space as it
/// was, wherever the key holds an integer.
pub proof fn law_inc_then_dec(space: Map<Seq<char>, StoredView>, key: Seq<char>)
    requires
        integer_at(space, key) is Ok,
    ensures
        inc_spec(space, key) matches Ok(raised) && dec_spec(raised.space, key) matches Ok(lowered)
            && lowered.space == space,
{
    let value = integer_at(space, key)->Ok_0;
    let raised = space.insert(key, StoredView::BigInteger(value + 1));
    assert(raised.insert(key, StoredView::BigInteger(value + 1 + (-1))) =~= space);
}

/// Where `add` is carried out, the target holds the sum of what the two
/// keys held, and every other key, the second one among them, holds what
/// it held.
pub proof fn law_add_effect(space: Map<Seq<char>, StoredView>, target: Seq<char>, other: Seq<char>)
    requires
        add_spec(space, target, other) is Ok,
    ensures
        target != other,
        integer_at(space, target) matches Ok(sum) && integer_at(space, other) matches Ok(addend) && {
            let after = add_spec(space, target, other)->Ok_0.space;
            &&& after[target] == StoredView::BigInteger(sum + addend)
            &&& after[other] == space[other]
            &&& after.dom() == space.dom()
            &&& forall|key: Seq<char>| key != target && space.contains_key(key) ==> after[key] == space[key]
        },
{
    let after = add_spec(space, target, other)->Ok_0.space;
    assert(after.dom() =~= space.dom());
}

/// `add` is carried out exactly when the two keys differ and both hold an
/// integer.
pub proof fn law_add_carried_out(
    space: Map<Seq<char>, StoredView>,
    target: Seq<char>,
    other: Seq<char>,
)
    ensures
        add_spec(space, target, other) is Ok <==> target != other && integer_at(space, target) is Ok
            && integer_at(space, other) is Ok,
{
}

/// Adding a key to itself is refused as a self operation, whether or not
/// the key is bound, and whatever it is bound to.
pub proof fn law_add_to_itself(space: Map<Seq<char>, StoredView>, key: Seq<char>)
    ensures
        add_spec(space, key, key) == Err::<Outcome, ErrorKind>(ErrorKind::SelfOperation),
{
}

} // verus!
