//! The exact `application/x-www-form-urlencoded` bodies of the two write
//! requests the tool sends: coupon creation and promotion-code creation.
//!
//! The wire format is the payments service's query-string convention: fields
//! in declaration order joined by `&`, nested fields in bracket notation,
//! values percent-encoded with the WHATWG query set (space as `+`, uppercase
//! hex, every non-ASCII byte escaped).

use vstd::prelude::*;
use crate::numbers::decimal_rep;

verus! {

/// Bytes the query-string encoding passes through unchanged: printable
/// ASCII except space and the escaped set `" # % + < > [ ] = &`.
pub open spec fn qs_passthrough(b: u8) -> bool {
    &&& 33 <= b <= 126
    &&& b != 34
    &&& b != 35
    &&& b != 37
    &&& b != 43
    &&& b != 60
    &&& b != 62
    &&& b != 91
    &&& b != 93
    &&& b != 61
    &&& b != 38
}

/// Uppercase hexadecimal digit for `0 <= n < 16`.
pub open spec fn upper_hex_digit(n: int) -> u8 {
    if n < 10 {
        (48 + n) as u8
    } else {
        (55 + n) as u8
    }
}

/// How one byte is written in a query-string value: space becomes `+`,
/// passthrough bytes stand as themselves, everything else is `%XX`.
pub open spec fn escape_byte(b: u8) -> Seq<u8> {
    if b == 32 {
        seq![43u8]
    } else if qs_passthrough(b) {
        seq![b]
    } else {
        seq![37u8, upper_hex_digit(b as int / 16), upper_hex_digit(b as int % 16)]
    }
}

/// The query-string encoding of a whole value.
pub open spec fn qs_escape(s: Seq<u8>) -> Seq<u8>
    decreases s.len(),
{
    if s.len() == 0 {
        seq![]
    } else {
        qs_escape(s.drop_last()) + escape_byte(s.last())
    }
}

fn upper_hex_exec(n: u8) -> (r: u8)
    requires
        n < 16,
    ensures
        r == upper_hex_digit(n as int),
{
    if n < 10 {
        48 + n
    } else {
        55 + n
    }
}

/// Percent-encodes `s` as a query-string value.
pub fn qs_escape_exec(s: &[u8]) -> (r: Vec<u8>)
    ensures
        r@ == qs_escape(s@),
{
    let mut out: Vec<u8> = Vec::new();
    let mut i: usize = 0;
    while i < s.len()
        invariant
            i <= s@.len(),
            out@ == qs_escape(s@.subrange(0, i as int)),
        decreases s@.len() - i,
    {
        let b = s[i];
        proof {
            assert(s@.subrange(0, i as int + 1).drop_last() =~= s@.subrange(0, i as int));
            assert(s@.subrange(0, i as int + 1).last() == s@[i as int]);
        }
        if b == 32 {
            out.push(43);
        } else if 33 <= b && b <= 126 && b != 34 && b != 35 && b != 37 && b != 43
            && b != 60 && b != 62 && b != 91 && b != 93 && b != 61 && b != 38 {
            out.push(b);
        } else {
            out.push(37);
            out.push(upper_hex_exec(b / 16));
            out.push(upper_hex_exec(b % 16));
        }
        proof {
            assert(out@ =~= qs_escape(s@.subrange(0, i as int + 1)));
        }
        i = i + 1;
    }
    proof {
        assert(s@.subrange(0, s@.len() as int) =~= s@);
    }
    out
}

/// The bytes of `name=`.
pub open spec fn lit_name_key() -> Seq<u8> {
    seq![110u8, 97u8, 109u8, 101u8, 61u8]
}

fn lit_name_key_exec() -> (r: Vec<u8>)
    ensures
        r@ == lit_name_key(),
{
    let v: Vec<u8> = vec![110, 97, 109, 101, 61];
    proof {
        assert(v@ =~= lit_name_key());
    }
    v
}

/// The bytes of `&percent_off=100.0&redeem_by=`.
pub open spec fn lit_percent_redeem() -> Seq<u8> {
    seq![38u8, 112u8, 101u8, 114u8, 99u8, 101u8, 110u8, 116u8, 95u8, 111u8, 102u8, 102u8, 61u8, 49u8, 48u8, 48u8, 46u8, 48u8, 38u8, 114u8, 101u8, 100u8, 101u8, 101u8, 109u8, 95u8, 98u8, 121u8, 61u8]
}

fn lit_percent_redeem_exec() -> (r: Vec<u8>)
    ensures
        r@ == lit_percent_redeem(),
{
    let v: Vec<u8> = vec![38, 112, 101, 114, 99, 101, 110, 116, 95, 111, 102, 102, 61, 49, 48, 48, 46, 48, 38, 114, 101, 100, 101, 101, 109, 95, 98, 121, 61];
    proof {
        assert(v@ =~= lit_percent_redeem());
    }
    v
}

/// The bytes of `&applies_to[products][0]=`.
pub open spec fn lit_applies_to() -> Seq<u8> {
    seq![38u8, 97u8, 112u8, 112u8, 108u8, 105u8, 101u8, 115u8, 95u8, 116u8, 111u8, 91u8, 112u8, 114u8, 111u8, 100u8, 117u8, 99u8, 116u8, 115u8, 93u8, 91u8, 48u8, 93u8, 61u8]
}

fn lit_applies_to_exec() -> (r: Vec<u8>)
    ensures
        r@ == lit_applies_to(),
{
    let v: Vec<u8> = vec![38, 97, 112, 112, 108, 105, 101, 115, 95, 116, 111, 91, 112, 114, 111, 100, 117, 99, 116, 115, 93, 91, 48, 93, 61];
    proof {
        assert(v@ =~= lit_applies_to());
    }
    v
}

/// The bytes of `coupon=`.
pub open spec fn lit_coupon_key() -> Seq<u8> {
    seq![99u8, 111u8, 117u8, 112u8, 111u8, 110u8, 61u8]
}

fn lit_coupon_key_exec() -> (r: Vec<u8>)
    ensures
        r@ == lit_coupon_key(),
{
    let v: Vec<u8> = vec![99, 111, 117, 112, 111, 110, 61];
    proof {
        assert(v@ =~= lit_coupon_key());
    }
    v
}

/// The bytes of `&code=`.
pub open spec fn lit_code_key() -> Seq<u8> {
    seq![38u8, 99u8, 111u8, 100u8, 101u8, 61u8]
}

fn lit_code_key_exec() -> (r: Vec<u8>)
    ensures
        r@ == lit_code_key(),
{
    let v: Vec<u8> = vec![38, 99, 111, 100, 101, 61];
    proof {
        assert(v@ =~= lit_code_key());
    }
    v
}

/// The bytes of `&expires_at=`.
pub open spec fn lit_expires_key() -> Seq<u8> {
    seq![38u8, 101u8, 120u8, 112u8, 105u8, 114u8, 101u8, 115u8, 95u8, 97u8, 116u8, 61u8]
}

fn lit_expires_key_exec() -> (r: Vec<u8>)
    ensures
        r@ == lit_expires_key(),
{
    let v: Vec<u8> = vec![38, 101, 120, 112, 105, 114, 101, 115, 95, 97, 116, 61];
    proof {
        assert(v@ =~= lit_expires_key());
    }
    v
}

/// The bytes of `&max_redemptions=1&restrictions[first_time_transaction]=false`.
pub open spec fn lit_promo_tail() -> Seq<u8> {
    seq![38u8, 109u8, 97u8, 120u8, 95u8, 114u8, 101u8, 100u8, 101u8, 109u8, 112u8, 116u8, 105u8, 111u8, 110u8, 115u8, 61u8, 49u8, 38u8, 114u8, 101u8, 115u8, 116u8, 114u8, 105u8, 99u8, 116u8, 105u8, 111u8, 110u8, 115u8, 91u8, 102u8, 105u8, 114u8, 115u8, 116u8, 95u8, 116u8, 105u8, 109u8, 101u8, 95u8, 116u8, 114u8, 97u8, 110u8, 115u8, 97u8, 99u8, 116u8, 105u8, 111u8, 110u8, 93u8, 61u8, 102u8, 97u8, 108u8, 115u8, 101u8]
}

fn lit_promo_tail_exec() -> (r: Vec<u8>)
    ensures
        r@ == lit_promo_tail(),
{
    let v: Vec<u8> = vec![38, 109, 97, 120, 95, 114, 101, 100, 101, 109, 112, 116, 105, 111, 110, 115, 61, 49, 38, 114, 101, 115, 116, 114, 105, 99, 116, 105, 111, 110, 115, 91, 102, 105, 114, 115, 116, 95, 116, 105, 109, 101, 95, 116, 114, 97, 110, 115, 97, 99, 116, 105, 111, 110, 93, 61, 102, 97, 108, 115, 101];
    proof {
        assert(v@ =~= lit_promo_tail());
    }
    v
}

/// The form-encoded body of the coupon-creation request: the operator's
/// label, a fixed 100% discount, the redeem-by epoch second, and the single
/// product the coupon is restricted to.
pub open spec fn coupon_body(name: Seq<u8>, redeem_by: int, product_id: Seq<u8>) -> Seq<u8> {
    lit_name_key() + qs_escape(name) + lit_percent_redeem() + decimal_rep(redeem_by)
        + lit_applies_to() + qs_escape(product_id)
}

/// Builds the coupon-creation body.
pub fn coupon_body_exec(name: &[u8], redeem_by: i64, product_id: &[u8]) -> (r: Vec<u8>)
    ensures
        r@ == coupon_body(name@, redeem_by as int, product_id@),
{
    let mut out = lit_name_key_exec();
    let mut part_name = qs_escape_exec(name);
    out.append(&mut part_name);
    let mut part_mid = lit_percent_redeem_exec();
    out.append(&mut part_mid);
    let mut part_ts = crate::numbers::render_i64(redeem_by);
    out.append(&mut part_ts);
    let mut part_applies = lit_applies_to_exec();
    out.append(&mut part_applies);
    let mut part_product = qs_escape_exec(product_id);
    out.append(&mut part_product);
    out
}

/// The form-encoded body of a promotion-code creation request: the coupon
/// reference, the generated code, the expiration epoch second, a single
/// permitted redemption, and the first-time-transaction restriction, which
/// the tool always sends as `false`.
pub open spec fn promo_body(coupon_id: Seq<u8>, code: Seq<u8>, expires_at: int) -> Seq<u8> {
    lit_coupon_key() + qs_escape(coupon_id) + lit_code_key() + qs_escape(code)
        + lit_expires_key() + decimal_rep(expires_at) + lit_promo_tail()
}

/// Builds a promotion-code creation body.
pub fn promo_body_exec(coupon_id: &[u8], code: &[u8], expires_at: i64) -> (r: Vec<u8>)
    ensures
        r@ == promo_body(coupon_id@, code@, expires_at as int),
{
    let mut out = lit_coupon_key_exec();
    let mut part_coupon = qs_escape_exec(coupon_id);
    out.append(&mut part_coupon);
    let mut part_code_key = lit_code_key_exec();
    out.append(&mut part_code_key);
    let mut part_code = qs_escape_exec(code);
    out.append(&mut part_code);
    let mut part_expires_key = lit_expires_key_exec();
    out.append(&mut part_expires_key);
    let mut part_ts = crate::numbers::render_i64(expires_at);
    out.append(&mut part_ts);
    let mut part_tail = lit_promo_tail_exec();
    out.append(&mut part_tail);
    out
}

} // verus!
