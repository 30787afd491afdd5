//! The order of texts: by their bytes, the first that differs deciding.

use vstd::prelude::*;
use vstd::string::*;
use vstd::utf8::*;

verus! {

/// Whether the bytes `left` come before the bytes `right`.
pub open spec fn bytes_before(left: Seq<u8>, right: Seq<u8>) -> bool
    decreases left.len(),
{
    if right.len() == 0 {
        false
    } else if left.len() == 0 {
        true
    } else if left[0] == right[0] {
        bytes_before(left.drop_first(), right.drop_first())
    } else {
        left[0] < right[0]
    }
}

/// Whether the text `left` comes before the text `right`.
pub open spec fn text_before(left: Seq<char>, right: Seq<char>) -> bool {
    bytes_before(encode_utf8(left), encode_utf8(right))
}

/// Returns whether the text `left` comes before the text `right`.
pub fn is_before(left: &str, right: &str) -> (before: bool)
    ensures
        before == text_before(left@, right@),
{
    let left_bytes = left.as_bytes();
    let right_bytes = right.as_bytes();
    let mut i: usize = 0;
    proof {
        assert(left_bytes@.skip(0) =~= left_bytes@);
        assert(right_bytes@.skip(0) =~= right_bytes@);
    }
    while i < left_bytes.len() && i < right_bytes.len() && left_bytes[i] == right_bytes[i]
        invariant
            i <= left_bytes@.len(),
            i <= right_bytes@.len(),
            bytes_before(left_bytes@, right_bytes@) == bytes_before(
                left_bytes@.skip(i as int),
                right_bytes@.skip(i as int),
            ),
        decreases left_bytes@.len() - i,
    {
        proof {
            assert(left_bytes@.skip(i as int).drop_first() =~= left_bytes@.skip(i + 1));
            assert(right_bytes@.skip(i as int).drop_first() =~= right_bytes@.skip(i + 1));
        }
        i = i + 1;
    }
    if i >= right_bytes.len() {
        false
    } else if i >= left_bytes.len() {
        true
    } else {
        left_bytes[i] < right_bytes[i]
    }
}

proof fn lemma_bytes_asymmetric(left: Seq<u8>, right: Seq<u8>)
    ensures
        !(bytes_before(left, right) && bytes_before(right, left)),
    decreases left.len(),
{
    if left.len() > 0 && right.len() > 0 && left[0] == right[0] {
        lemma_bytes_asymmetric(left.drop_first(), right.drop_first());
    }
}

proof fn lemma_bytes_transitive(first: Seq<u8>, second: Seq<u8>, third: Seq<u8>)
    requires
        bytes_before(first, second),
        bytes_before(second, third),
    ensures
        bytes_before(first, third),
    decreases first.len(),
{
    if first.len() > 0 && first[0] == second[0] && second[0] == third[0] {
        lemma_bytes_transitive(first.drop_first(), second.drop_first(), third.drop_first());
    }
}

proof fn lemma_bytes_total(left: Seq<u8>, right: Seq<u8>)
    ensures
        left == right || bytes_before(left, right) || bytes_before(right, left),
    decreases left.len(),
{
    if left.len() == 0 || right.len() == 0 {
        assert(left.len() == right.len() ==> left =~= right);
    } else if left[0] == right[0] {
        lemma_bytes_total(left.drop_first(), right.drop_first());
        if left.drop_first() == right.drop_first() {
            assert(left =~= seq![left[0]] + left.drop_first());
            assert(right =~= seq![right[0]] + right.drop_first());
        }
    }
}

/// No text comes before one that comes before it, nor before itself.
pub proof fn law_order_is_asymmetric(left: Seq<char>, right: Seq<char>)
    ensures
        !(text_before(left, right) && text_before(right, left)),
        !text_before(left, left),
{
    lemma_bytes_asymmetric(encode_utf8(left), encode_utf8(right));
    lemma_bytes_asymmetric(encode_utf8(left), encode_utf8(left));
}

/// What comes before a text comes before all that the text comes before.
pub proof fn law_order_is_transitive(first: Seq<char>, second: Seq<char>, third: Seq<char>)
    requires
        text_before(first, second),
        text_before(second, third),
    ensures
        text_before(first, third),
{
    lemma_bytes_transitive(encode_utf8(first), encode_utf8(second), encode_utf8(third));
}

/// Of two different texts, one comes before the other.
pub proof fn law_order_is_total(left: Seq<char>, right: Seq<char>)
    ensures
        left == right || text_before(left, right) || text_before(right, left),
{
    broadcast use encode_utf8_decode_utf8;

    lemma_bytes_total(encode_utf8(left), encode_utf8(right));
    if encode_utf8(left) == encode_utf8(right) {
        assert(decode_utf8(encode_utf8(left)) == left);
        assert(decode_utf8(encode_utf8(right)) == right);
    }
}

/// Bytes that agree up to a place are in the order of what follows from there.
proof fn lemma_bytes_skip(left: Seq<u8>, right: Seq<u8>, at: int)
    requires
        0 <= at <= left.len(),
        at <= right.len(),
        forall|j: int| 0 <= j < at ==> #[trigger] left[j] == right[j],
    ensures
        bytes_before(left, right) == bytes_before(left.skip(at), right.skip(at)),
    decreases at,
{
    if at == 0 {
        assert(left.skip(0) =~= left);
        assert(right.skip(0) =~= right);
    } else {
        let rest = left.drop_first();
        let other = right.drop_first();
        assert(left[0] == right[0]);
        assert forall|j: int| 0 <= j < at - 1 implies #[trigger] rest[j] == other[j] by {
            assert(left[j + 1] == right[j + 1]);
        }
        lemma_bytes_skip(rest, other, at - 1);
        assert(rest.skip(at - 1) =~= left.skip(at));
        assert(other.skip(at - 1) =~= right.skip(at));
    }
}

/// Of two texts whose bytes differ, the first byte that differs decides on their order.
pub proof fn law_first_difference_decides(left: &str, right: &str, at: int, before: bool)
    requires
        call_ensures(is_before, (left, right), before),
        0 <= at < encode_utf8(left@).len(),
        at < encode_utf8(right@).len(),
        forall|j: int|
            0 <= j < at ==> #[trigger] encode_utf8(left@)[j] == encode_utf8(right@)[j],
        encode_utf8(left@)[at] != encode_utf8(right@)[at],
    ensures
        before <==> encode_utf8(left@)[at] < encode_utf8(right@)[at],
{
    lemma_bytes_skip(encode_utf8(left@), encode_utf8(right@), at);
}

/// A text comes before those that go on behind it, and before no text that it goes on behind.
pub proof fn law_start_comes_first(start: &str, whole: &str, before: bool, after: bool)
    requires
        call_ensures(is_before, (start, whole), before),
        call_ensures(is_before, (whole, start), after),
        encode_utf8(start@).len() <= encode_utf8(whole@).len(),
        forall|j: int|
            0 <= j < encode_utf8(start@).len() ==> #[trigger] encode_utf8(start@)[j]
                == encode_utf8(whole@)[j],
    ensures
        before <==> encode_utf8(start@).len() < encode_utf8(whole@).len(),
        !after,
{
    let n = encode_utf8(start@).len() as int;
    lemma_bytes_skip(encode_utf8(start@), encode_utf8(whole@), n);
    lemma_bytes_skip(encode_utf8(whole@), encode_utf8(start@), n);
}

/// Texts are in the order that comparing them gives.
pub proof fn law_order_is_what_comparing_gives(left: &str, right: &str, before: bool)
    requires
        call_ensures(is_before, (left, right), before),
    ensures
        before <==> text_before(left@, right@),
{
}

} // verus!
