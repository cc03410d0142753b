//! Laws that hold of sniffing and of navigation.
use vstd::prelude::*;
use crate::content::{ContentType, cbor_admissible, inspected, json_attempt, sniffed};
use crate::nav::{Focus, Input, NavState, selection_valid, step, steps};

verus! {

/// Sniffing is a function of the raw bytes (and of what the binary decoder
/// made of them): two classifications of the same bytes agree in type and text.
pub proof fn law_sniff_idempotent(
    raw: Seq<u8>,
    cbor: Option<Seq<char>>,
    first: (ContentType, Seq<char>),
    second: (ContentType, Seq<char>),
)
    requires
        first == sniffed(raw, cbor),
        second == sniffed(raw, cbor),
    ensures
        first == second,
{
}

/// Every byte string gets exactly one of structured text, binary document or
/// opaque bytes, never `Undefined`; `Undefined` comes exactly from having no
/// value.
pub proof fn law_sniff_exhaustive(raw: Seq<u8>, cbor: Option<Seq<char>>)
    ensures
        sniffed(raw, cbor).0 != ContentType::Undefined,
        (sniffed(raw, cbor).0 == ContentType::Json) == (json_attempt(raw) is Some),
        (sniffed(raw, cbor).0 == ContentType::Cbor) == (json_attempt(raw) is None
            && cbor_admissible(raw) && cbor is Some),
        (sniffed(raw, cbor).0 == ContentType::Hex) == (json_attempt(raw) is None && !(
        cbor_admissible(raw) && cbor is Some)),
        inspected(None, cbor) == (ContentType::Undefined, Seq::<char>::empty()),
        inspected(Some(raw), cbor).0 != ContentType::Undefined,
{
}

/// How far along the list a selection is: `-1` for none.
pub open spec fn rank(sel: Option<usize>) -> int {
    match sel {
        Some(i) => i as int,
        None => -1,
    }
}

/// With the key list focused, `k` "next" inputs move the selection `k` keys
/// on, but never past the last of the `n` keys.
pub proof fn law_next_saturates(s: NavState, n: nat, k: nat)
    requires
        selection_valid(s.1, n),
        n <= usize::MAX,
        s.0 == Focus::Keys,
    ensures
        steps(s, n, Input::Next, k).0 == Focus::Keys,
        selection_valid(steps(s, n, Input::Next, k).1, n),
        n > 0 && k > 0 ==> rank(steps(s, n, Input::Next, k).1) == if rank(s.1) + k < n - 1 {
            rank(s.1) + k
        } else {
            n - 1
        },
    decreases k,
{
    if k > 0 {
        law_next_saturates(s, n, (k - 1) as nat);
        assert(steps(s, n, Input::Next, 0) == s);
    }
}

/// With the key list focused, `k` "previous" inputs from a selection move it
/// `k` keys back, but never before the first.
pub proof fn law_previous_saturates(s: NavState, n: nat, k: nat)
    requires
        selection_valid(s.1, n),
        n <= usize::MAX,
        s.0 == Focus::Keys,
        s.1 is Some,
    ensures
        steps(s, n, Input::Previous, k).0 == Focus::Keys,
        selection_valid(steps(s, n, Input::Previous, k).1, n),
        rank(steps(s, n, Input::Previous, k).1) == if rank(s.1) - k > 0 {
            rank(s.1) - k
        } else {
            0
        },
    decreases k,
{
    if k > 0 {
        law_previous_saturates(s, n, (k - 1) as nat);
        assert(steps(s, n, Input::Previous, 0) == s);
    }
}

/// Switching the focus, either way, leaves the scroll offset at zero and the
/// selection as it was.
pub proof fn law_switch_resets_scroll(s: NavState, n: nat)
    ensures
        step(s, n, Input::SwitchFocus) == (s.0.other(), s.1, 0usize),
{
}

} // verus!
