//! Code generation, status handling, the selection boundary, and the
//! minting loop, driven against scripted service responses.

use rusty_voucher::codes::{alphabet_byte, generate_random_code};
use rusty_voucher::session::{
    assess_coupon_status, assess_products_status, product_at, selection_accepted,
    CouponVerdict, Minter, MintOutcome, ProductsVerdict,
};

fn is_code_char(b: u8) -> bool {
    (b'A'..=b'Z').contains(&b) || (b'0'..=b'9').contains(&b)
}

#[test]
fn alphabet_order_and_symbols() {
    assert_eq!(alphabet_byte(0), b'A');
    assert_eq!(alphabet_byte(25), b'Z');
    assert_eq!(alphabet_byte(26), b'1');
    assert_eq!(alphabet_byte(34), b'9');
    assert_eq!(alphabet_byte(35), b'0');
    let mut seen = [false; 256];
    for i in 0..36usize {
        let b = alphabet_byte(i);
        assert!(is_code_char(b));
        assert!(!seen[b as usize], "alphabet symbol repeated");
        seen[b as usize] = true;
    }
    for b in 0..=255u8 {
        assert_eq!(seen[b as usize], is_code_char(b));
    }
}

#[test]
fn generated_codes_are_six_alphanumerics() {
    for _ in 0..200 {
        let code = generate_random_code();
        assert_eq!(code.len(), 6);
        assert!(code.iter().all(|&b| is_code_char(b)));
    }
}

#[test]
fn products_status_mapping() {
    assert_eq!(assess_products_status(401), ProductsVerdict::Unauthorized);
    assert_eq!(assess_products_status(200), ProductsVerdict::Proceed);
    assert_eq!(assess_products_status(400), ProductsVerdict::Unexpected);
    assert_eq!(assess_products_status(500), ProductsVerdict::Unexpected);
    assert_eq!(assess_products_status(204), ProductsVerdict::Unexpected);
}

#[test]
fn coupon_status_mapping() {
    assert_eq!(assess_coupon_status(401), CouponVerdict::Unauthorized);
    assert_eq!(assess_coupon_status(400), CouponVerdict::Rejected);
    assert_eq!(assess_coupon_status(200), CouponVerdict::Proceed);
    assert_eq!(assess_coupon_status(503), CouponVerdict::Unexpected);
}

#[test]
fn selection_boundary() {
    // Strictly in range: accepted.
    assert!(selection_accepted(0, 3));
    assert!(selection_accepted(2, 3));
    // The non-strict bound lets the index equal to the length through; the
    // run then fails at the lookup, which demands a strict bound.
    assert!(selection_accepted(3, 3));
    // Beyond the length: rejected.
    assert!(!selection_accepted(4, 3));
    assert!(!selection_accepted(100, 3));
}

#[test]
fn product_lookup() {
    let products: Vec<Vec<u8>> = vec![b"prod_a".to_vec(), b"prod_b".to_vec()];
    assert_eq!(product_at(&products, 0), &b"prod_a".to_vec());
    assert_eq!(product_at(&products, 1), &b"prod_b".to_vec());
}

/// Drives the minting loop against a scripted list of statuses and returns
/// the recorded codes plus the final state, as the tool's loop would.
fn run_minter(minter: &mut Minter, script: &[u16]) -> Vec<Vec<u8>> {
    let mut recorded: Vec<Vec<u8>> = Vec::new();
    let mut next: usize = 0;
    while minter.outcome == MintOutcome::InProgress {
        let (code, _body) = minter.next_attempt();
        let status = script[next];
        next += 1;
        if minter.on_response(status) {
            recorded.push(code);
        }
    }
    assert_eq!(next, script.len(), "loop must stop exactly with the script");
    recorded
}

#[test]
fn two_rejections_then_successes() {
    // The first two attempts come back 400; the loop retries with fresh
    // codes and still mints the requested three, recording only the codes
    // the service accepted.
    let mut minter = Minter::new(3, b"co_1".to_vec(), 1893542399);
    let recorded = run_minter(&mut minter, &[400, 400, 200, 200, 200]);
    assert_eq!(minter.outcome, MintOutcome::Completed);
    assert_eq!(minter.created, 3);
    assert_eq!(recorded.len(), 3);
    for code in &recorded {
        assert_eq!(code.len(), 6);
        assert!(code.iter().all(|&b| is_code_char(b)));
    }
}

#[test]
fn unauthorized_stops_at_once() {
    let mut minter = Minter::new(3, b"co_1".to_vec(), 1893542399);
    let recorded = run_minter(&mut minter, &[200, 401]);
    assert_eq!(minter.outcome, MintOutcome::Unauthorized);
    assert_eq!(minter.created, 1);
    assert_eq!(recorded.len(), 1);
}

#[test]
fn unauthorized_first_attempt() {
    let mut minter = Minter::new(2, b"co_1".to_vec(), 0);
    let recorded = run_minter(&mut minter, &[401]);
    assert_eq!(minter.outcome, MintOutcome::Unauthorized);
    assert_eq!(minter.created, 0);
    assert!(recorded.is_empty());
}

#[test]
fn unexpected_status_stops() {
    let mut minter = Minter::new(2, b"co_1".to_vec(), 0);
    let recorded = run_minter(&mut minter, &[200, 500]);
    assert_eq!(minter.outcome, MintOutcome::Unexpected);
    assert_eq!(minter.created, 1);
    assert_eq!(recorded.len(), 1);
}

#[test]
fn full_run_three_codes() {
    // End to end across the library: a valid date, a count of three, one
    // product, an always-accepting service.
    let (expires_at, _offset) =
        rusty_voucher::dates::expiration_timestamp(b"2030-01-01").unwrap();
    assert_eq!(rusty_voucher::numbers::parse_code_count(b"3"), Ok(3));

    let products: Vec<Vec<u8>> = vec![b"prod_only".to_vec()];
    assert!(selection_accepted(0, products.len()));
    let product = product_at(&products, 0).clone();

    let coupon_body =
        rusty_voucher::encode::coupon_body_exec(b"Holiday", expires_at, &product);
    let expected_body = format!(
        "name=Holiday&percent_off=100.0&redeem_by={}&applies_to[products][0]=prod_only",
        expires_at
    );
    assert_eq!(String::from_utf8(coupon_body).unwrap(), expected_body);

    let mut minter = Minter::new(3, b"co_new".to_vec(), expires_at);
    let recorded = run_minter(&mut minter, &[200, 200, 200]);
    assert_eq!(minter.outcome, MintOutcome::Completed);
    assert_eq!(recorded.len(), 3);
    for code in &recorded {
        assert_eq!(code.len(), 6);
        assert!(code.iter().all(|&b| is_code_char(b)));
    }
}
