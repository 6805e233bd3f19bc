use vstd::prelude::*;

use crate::app::models::author::Author;
use crate::app::models::reference_item::{NewReferenceItem, ReferenceItem};

verus! {

/// Response data for a reference item with its loaded authors.
#[derive(Debug, Clone)]
pub struct ReferenceItemResponse {
    pub reference: ReferenceItem,
    pub authors: Vec<Author>,
}

/// Create attributes for a reference item.
#[derive(Debug, Clone)]
pub struct NewReferenceItemRequest {
    pub reference: NewReferenceItem,
}

/// Pairs a reference item with its authors.
pub fn load_reference_item_response(reference_item: ReferenceItem, authors: Vec<Author>) -> (r: ReferenceItemResponse)
    ensures
        r.reference == reference_item,
        r.authors@ == authors@,
{
    ReferenceItemResponse { reference: reference_item, authors }
}

/// The character of the decimal digit `d`.
pub open spec fn digit_char(d: int) -> char {
    (48 + d) as char
}

/// Decimal digits of `n`, most significant first, without leading zeros.
pub open spec fn decimal_digits(n: nat) -> Seq<char>
    decreases n,
{
    if n < 10 {
        seq![digit_char(n as int)]
    } else {
        decimal_digits(n / 10).push(digit_char((n % 10) as int))
    }
}

/// Decimal notation of `n`, with a leading `-` where it is negative.
pub open spec fn decimal_of(n: int) -> Seq<char> {
    if n < 0 {
        seq!['-'] + decimal_digits((-n) as nat)
    } else {
        decimal_digits(n as nat)
    }
}

/// Appends the decimal digits of `n`.
fn push_decimal_digits(s: &mut String, n: u64)
    ensures
        final(s)@ == old(s)@ + decimal_digits(n as nat),
    decreases n,
{
    if n >= 10 {
        push_decimal_digits(s, n / 10);
    }
    let d: u8 = (n % 10) as u8;
    let c: char = (48u8 + d) as char;
    s.push(c);
    proof {
        assert(old(s)@ + decimal_digits(n as nat) =~= final(s)@) by {
            if n >= 10 {
                assert(decimal_digits(n as nat) == decimal_digits((n / 10) as nat).push(digit_char((n % 10) as int)));
            }
        }
    }
}

/// Appends the decimal notation of `n`.
pub fn push_decimal(s: &mut String, n: i32)
    ensures
        final(s)@ == old(s)@ + decimal_of(n as int),
{
    if n < 0 {
        s.push('-');
        let magnitude: u64 = (-(n as i64)) as u64;
        push_decimal_digits(s, magnitude);
        proof {
            assert(final(s)@ =~= old(s)@ + decimal_of(n as int));
        }
    } else {
        push_decimal_digits(s, n as u64);
    }
}

/// Message of a failed read: `Reference not found: <id>`.
pub fn reference_not_found(reference_item_id: i32) -> (r: String)
    ensures
        r@ == "Reference not found: "@ + decimal_of(reference_item_id as int),
{
    let mut message = String::from_str("Reference not found: ");
    push_decimal(&mut message, reference_item_id);
    message
}

} // verus!
