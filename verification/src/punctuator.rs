//! Re-punctuation of item sequences: every item but the last is followed by
//! the given separator, and the last item carries none.

use vstd::prelude::*;
use crate::ast::{Pair, PairView, Punctuated, TokenReference, TokenReferenceView};

verus! {

/// The items of a punctuated sequence, separators dropped.
pub open spec fn pair_values<V>(s: Seq<PairView<V>>) -> Seq<V> {
    s.map_values(|p: PairView<V>| p.value)
}

/// A separator token for every item but the last, which carries none.
pub open spec fn spec_punctuate_name<V>(items: Seq<V>, p: TokenReferenceView) -> Seq<PairView<V>> {
    Seq::new(
        items.len(),
        |i: int|
            PairView {
                value: items[i],
                punctuation: if i + 1 == items.len() {
                    None
                } else {
                    Some(p)
                },
            },
    )
}

/// Re-punctuates a sequence with the given separator; the last item is left
/// unseparated.
pub fn punctuate_name<T: View>(arr: Punctuated<T>, punctuation: &TokenReference) -> (r: Punctuated<
    T,
>)
    ensures
        r@ == spec_punctuate_name(pair_values(arr@), punctuation@),
{
    let ghost items = pair_values(arr@);
    let arr_len = arr.len();
    let mut rest = arr;
    let mut new_arr: Punctuated<T> = Punctuated::new();
    let mut i: usize = 0;
    while rest.pairs.len() > 0
        invariant
            i + rest.pairs.len() == arr_len,
            arr_len == items.len(),
            forall|j: int|
                0 <= j < rest.pairs@.len() ==> (#[trigger] rest.pairs@[j])@.value == items[i + j],
            new_arr@ =~= spec_punctuate_name(items, punctuation@).subrange(0, i as int),
        decreases rest.pairs.len(),
    {
        let pair = rest.pairs.remove(0);
        if (i + 1) == arr_len {
            new_arr.push(Pair { value: pair.value, punctuation: None });
        } else {
            new_arr.push(Pair { value: pair.value, punctuation: Some(punctuation.duplicate()) });
        }
        proof {
            assert(new_arr@ =~= spec_punctuate_name(items, punctuation@).subrange(0, i + 1));
        }
        i = i + 1;
    }
    proof {
        assert(spec_punctuate_name(items, punctuation@).subrange(
            0,
            items.len() as int,
        ) =~= spec_punctuate_name(items, punctuation@));
    }
    new_arr
}

/// Re-punctuates the expression list of a combined statement with the given
/// separator.  Like every punctuated sequence, the last item carries no
/// trailing separator; the combined statement's terminator lives in the
/// block's statement pair instead.
pub fn punctuate_exp<T: View>(arr: Punctuated<T>, punctuation: &TokenReference) -> (r: Punctuated<
    T,
>)
    ensures
        r@ == spec_punctuate_name(pair_values(arr@), punctuation@),
{
    punctuate_name(arr, punctuation)
}

} // verus!
