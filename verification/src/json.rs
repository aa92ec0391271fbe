//! Building blocks of compact JSON text, written as bytes.

use vstd::prelude::*;
use vstd::string::StringSliceAdditionalSpecFns;

verus! {

/// The UTF-8 bytes of a string.
pub open spec fn text(s: &str) -> Seq<u8> {
    s.spec_bytes()
}

/// The decimal digits of a natural number, most significant first, without
/// leading zeros.
pub open spec fn decimal(n: nat) -> Seq<u8>
    decreases n,
{
    if n < 10 {
        seq![(n + 48) as u8]
    } else {
        decimal(n / 10).push((n % 10 + 48) as u8)
    }
}

/// Bytes between double quotes.
pub open spec fn quoted(body: Seq<u8>) -> Seq<u8> {
    text("\"") + body + text("\"")
}

/// The items separated by commas.
pub open spec fn comma_joined(items: Seq<Seq<u8>>) -> Seq<u8>
    decreases items.len(),
{
    if items.len() == 0 {
        Seq::empty()
    } else if items.len() == 1 {
        items[0]
    } else {
        comma_joined(items.drop_last()) + text(",") + items.last()
    }
}

/// Joining one more item onto a prefix of the items.
pub proof fn lemma_comma_joined_step(items: Seq<Seq<u8>>, i: int)
    requires
        0 <= i < items.len(),
    ensures
        i == 0 ==> comma_joined(items.take(i + 1)) == items[i],
        i > 0 ==> comma_joined(items.take(i + 1)) == comma_joined(items.take(i)) + text(",") + items[i],
{
    assert(items.take(i + 1).drop_last() =~= items.take(i));
    assert(items.take(i + 1).last() == items[i]);
}

/// Appends bytes.
pub fn push_bytes(out: &mut Vec<u8>, b: &[u8])
    ensures
        final(out)@ == old(out)@ + b@,
{
    let mut i: usize = 0;
    while i < b.len()
        invariant
            0 <= i <= b@.len(),
            out@ == old(out)@ + b@.take(i as int),
        decreases b@.len() - i,
    {
        out.push(b[i]);
        i = i + 1;
        assert(b@.take(i as int) =~= b@.take(i - 1).push(b@[i - 1]));
    }
    assert(b@.take(b@.len() as int) =~= b@);
}

/// Appends the UTF-8 bytes of a string.
pub fn push_text(out: &mut Vec<u8>, s: &str)
    ensures
        final(out)@ == old(out)@ + text(s),
{
    push_bytes(out, s.as_bytes());
}

/// Appends the decimal digits of a number.
pub fn push_decimal(out: &mut Vec<u8>, n: u128)
    ensures
        final(out)@ == old(out)@ + decimal(n as nat),
    decreases n,
{
    let ghost start = out@;
    if n >= 10 {
        push_decimal(out, n / 10);
    }
    let digit: u8 = (n % 10) as u8;
    out.push(digit + 48);
    assert(out@ =~= start + decimal(n as nat));
}

/// The number that a string of decimal digits denotes, most significant first.
pub open spec fn digits_value(digits: Seq<u8>) -> nat
    decreases digits.len(),
{
    if digits.len() == 0 {
        0
    } else {
        digits_value(digits.drop_last()) * 10 + (digits.last() - 48) as nat
    }
}

/// The decimal text of a number is a non-empty string of ASCII digits that
/// denotes the number, without a leading zero (except for zero itself).
pub proof fn lemma_decimal_denotes_its_number(n: nat)
    ensures
        decimal(n).len() >= 1,
        forall|i: int| 0 <= i < decimal(n).len() ==> 48 <= #[trigger] decimal(n)[i] <= 57,
        digits_value(decimal(n)) == n,
        n > 0 ==> decimal(n)[0] != 48,
        n == 0 ==> decimal(n) == seq![48u8],
    decreases n,
{
    if n >= 10 {
        lemma_decimal_denotes_its_number(n / 10);
        let d = decimal(n);
        assert(d.drop_last() =~= decimal(n / 10));
        assert(d[0] == decimal(n / 10)[0]);
        assert(d.last() == (n % 10 + 48) as u8);
        assert(digits_value(d) == digits_value(decimal(n / 10)) * 10 + (n % 10) as nat);
        assert((n / 10) * 10 + n % 10 == n);
        assert forall|i: int| 0 <= i < d.len() implies 48 <= #[trigger] d[i] <= 57 by {
            if i < d.len() - 1 {
                assert(d[i] == decimal(n / 10)[i]);
            }
        }
    } else {
        assert(seq![(n + 48) as u8].drop_last() =~= Seq::<u8>::empty());
        assert(digits_value(Seq::<u8>::empty()) == 0);
    }
}

/// Joining: no items give nothing, one item is itself, and each further item
/// follows the earlier ones after a comma.
pub proof fn lemma_comma_joined_shape(items: Seq<Seq<u8>>, item: Seq<u8>)
    ensures
        comma_joined(Seq::empty()) == Seq::<u8>::empty(),
        comma_joined(seq![item]) == item,
        items.len() > 0 ==> comma_joined(items.push(item)) == comma_joined(items) + text(",") + item,
{
    assert(items.push(item).drop_last() =~= items);
    assert(seq![item].len() == 1);
}

} // verus!
