//! The run's decisions: how each HTTP status is acted on at every stage, the
//! product-selection boundary check, and the state machine of the
//! promotion-code minting loop.  The surrounding binary performs the
//! requests and feeds the statuses back in.

use vstd::prelude::*;
use crate::codes::{generate_random_code, is_code};
use crate::encode::promo_body;

verus! {

/// What the tool does with the product-listing response.
#[derive(Clone, Copy, Debug, PartialEq, Eq, Structural)]
pub enum ProductsVerdict {
    /// Status 200: parse the product list and go on.
    Proceed,
    /// Status 401: abort, the credential is bad.
    Unauthorized,
    /// Any other status: abort with a generic error.
    Unexpected,
}

pub open spec fn products_verdict(status: u16) -> ProductsVerdict {
    if status == 401 {
        ProductsVerdict::Unauthorized
    } else if status == 200 {
        ProductsVerdict::Proceed
    } else {
        ProductsVerdict::Unexpected
    }
}

/// Classifies the status of the product-listing request.
pub fn assess_products_status(status: u16) -> (r: ProductsVerdict)
    ensures
        r == products_verdict(status),
{
    if status == 401 {
        ProductsVerdict::Unauthorized
    } else if status == 200 {
        ProductsVerdict::Proceed
    } else {
        ProductsVerdict::Unexpected
    }
}

/// What the tool does with the coupon-creation response.
#[derive(Clone, Copy, Debug, PartialEq, Eq, Structural)]
pub enum CouponVerdict {
    /// Status 200: parse the coupon and go on to minting.
    Proceed,
    /// Status 401: abort, the credential is bad.
    Unauthorized,
    /// Status 400: abort, the coupon cannot be created.
    Rejected,
    /// Any other status: abort with a generic error.
    Unexpected,
}

pub open spec fn coupon_verdict(status: u16) -> CouponVerdict {
    if status == 401 {
        CouponVerdict::Unauthorized
    } else if status == 400 {
        CouponVerdict::Rejected
    } else if status == 200 {
        CouponVerdict::Proceed
    } else {
        CouponVerdict::Unexpected
    }
}

/// Classifies the status of the coupon-creation request.
pub fn assess_coupon_status(status: u16) -> (r: CouponVerdict)
    ensures
        r == coupon_verdict(status),
{
    if status == 401 {
        CouponVerdict::Unauthorized
    } else if status == 400 {
        CouponVerdict::Rejected
    } else if status == 200 {
        CouponVerdict::Proceed
    } else {
        CouponVerdict::Unexpected
    }
}

/// The boundary check the tool applies to the operator's product selection.
///
/// The bound is deliberately non-strict: an index equal to the list length
/// is accepted here, although no product stands at that index, and the run
/// then fails on the lookup itself.  The check is kept as it is so that the
/// tool's observable behaviour does not change; `product_at` below demands
/// a strictly in-range index.
pub fn selection_accepted(index: usize, product_count: usize) -> (r: bool)
    ensures
        r == (index <= product_count),
{
    index <= product_count
}

/// The product identifier at a strictly in-range index.
pub fn product_at(products: &Vec<Vec<u8>>, index: usize) -> (r: &Vec<u8>)
    requires
        index < products@.len(),
    ensures
        r@ == products@[index as int]@,
{
    &products[index]
}

/// How the minting loop ends, or that it has not yet.
#[derive(Clone, Copy, Debug, PartialEq, Eq, Structural)]
pub enum MintOutcome {
    /// Still minting: more codes are owed and no fatal status was seen.
    InProgress,
    /// Every requested code was created.
    Completed,
    /// A 401 status: the run stops at once.
    Unauthorized,
    /// A status other than 200, 400 and 401: the run stops at once.
    Unexpected,
}

/// The created-count after one response: only a 200 mints a code.
pub open spec fn mint_next_created(created: int, status: u16) -> int {
    if status == 200 {
        created + 1
    } else {
        created
    }
}

/// The loop's state after one response: 401 and unexpected statuses are
/// fatal, 400 retries with a fresh code, 200 counts the code and completes
/// the run once the requested count is reached.
pub open spec fn mint_next_outcome(created: int, requested: int, status: u16) -> MintOutcome {
    if status == 401 {
        MintOutcome::Unauthorized
    } else if status == 400 {
        MintOutcome::InProgress
    } else if status == 200 {
        if created + 1 == requested {
            MintOutcome::Completed
        } else {
            MintOutcome::InProgress
        }
    } else {
        MintOutcome::Unexpected
    }
}

/// The state of the promotion-code minting loop.
pub struct Minter {
    /// How many codes the operator asked for.
    pub requested: i32,
    /// How many codes the service has accepted so far.
    pub created: i32,
    /// The identifier of the coupon every code is tied to.
    pub coupon_id: Vec<u8>,
    /// The expiration epoch second sent with every code.
    pub expires_at: i64,
    /// Whether the loop still runs, and if not, why it stopped.
    pub outcome: MintOutcome,
}

impl Minter {
    /// The counters are coherent with the outcome.
    pub open spec fn wf(self) -> bool {
        &&& 0 < self.requested
        &&& 0 <= self.created <= self.requested
        &&& (self.outcome == MintOutcome::InProgress ==> self.created < self.requested)
        &&& (self.outcome == MintOutcome::Completed ==> self.created == self.requested)
    }

    /// The loop still owes codes and no fatal status was seen.
    pub open spec fn running(self) -> bool {
        self.outcome == MintOutcome::InProgress
    }

    /// Starts the loop for `requested` codes tied to `coupon_id`.
    pub fn new(requested: i32, coupon_id: Vec<u8>, expires_at: i64) -> (r: Minter)
        requires
            requested > 0,
        ensures
            r.wf(),
            r.running(),
            r.requested == requested,
            r.created == 0,
            r.coupon_id@ == coupon_id@,
            r.expires_at == expires_at,
    {
        Minter { requested, created: 0, coupon_id, expires_at, outcome: MintOutcome::InProgress }
    }

    /// Draws a fresh random code and builds the request body for it.
    pub fn next_attempt(&self) -> (r: (Vec<u8>, Vec<u8>))
        requires
            self.running(),
        ensures
            is_code(r.0@),
            r.1@ == promo_body(self.coupon_id@, r.0@, self.expires_at as int),
    {
        let code = generate_random_code();
        let body = crate::encode::promo_body_exec(
            self.coupon_id.as_slice(),
            code.as_slice(),
            self.expires_at,
        );
        (code, body)
    }

    /// Feeds back the status of the attempt just answered.  Returns whether
    /// the attempted code was accepted and is to be recorded.
    pub fn on_response(&mut self, status: u16) -> (record: bool)
        requires
            old(self).wf(),
            old(self).running(),
        ensures
            final(self).wf(),
            record == (status == 200),
            final(self).requested == old(self).requested,
            final(self).coupon_id@ == old(self).coupon_id@,
            final(self).expires_at == old(self).expires_at,
            final(self).created == mint_next_created(old(self).created as int, status),
            final(self).outcome == mint_next_outcome(
                old(self).created as int,
                old(self).requested as int,
                status,
            ),
    {
        if status == 401 {
            self.outcome = MintOutcome::Unauthorized;
            false
        } else if status == 400 {
            false
        } else if status == 200 {
            self.created = self.created + 1;
            if self.created == self.requested {
                self.outcome = MintOutcome::Completed;
            }
            true
        } else {
            self.outcome = MintOutcome::Unexpected;
            false
        }
    }
}

/// An unauthorized status is fatal at every stage of the run: the listing
/// and coupon stages map it to their aborting verdicts, and the minting
/// loop leaves its running state with nothing counted.
pub proof fn lemma_unauthorized_always_fatal(created: int, requested: int)
    ensures
        products_verdict(401) == ProductsVerdict::Unauthorized,
        coupon_verdict(401) == CouponVerdict::Unauthorized,
        mint_next_outcome(created, requested, 401) == MintOutcome::Unauthorized,
        mint_next_outcome(created, requested, 401) != MintOutcome::InProgress,
        mint_next_created(created, 401) == created,
{
}

/// A rejected attempt costs nothing: a 400 status leaves the minting loop
/// running with the same count, so only accepted codes are ever counted or
/// recorded, and a 200 status counts exactly one.
pub proof fn lemma_only_successes_count(created: int, requested: int)
    requires
        0 <= created < requested,
    ensures
        mint_next_created(created, 400) == created,
        mint_next_outcome(created, requested, 400) == MintOutcome::InProgress,
        mint_next_created(created, 200) == created + 1,
        mint_next_outcome(created, requested, 200) == MintOutcome::Completed
            <==> created + 1 == requested,
{
}

} // verus!
