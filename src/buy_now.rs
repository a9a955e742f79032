//! Pricing of a "buy now" checkout: one product, bought at once.
use vstd::prelude::*;
use crate::delivery::DeliveryPackage;
use crate::pricing::{base_cost, line_subtotal, price_line, Coupon, PriceableLine};

verus! {

/// A product, as the stores service returns it.
#[derive(Clone, Debug)]
pub struct Product {
    pub id: i32,
    pub base_product_id: i32,
    pub is_active: bool,
    /// The product's own flat discount, in ten-thousandths.
    pub discount: Option<u32>,
    pub photo_main: Option<String>,
    pub vendor_code: Option<String>,
    /// The unit price.
    pub price: u64,
}

/// The values of a checkout of one product.
#[derive(Clone, Debug)]
pub struct BuyNowCheckout {
    pub product: Product,
    pub quantity: i32,
    /// The coupon the user added, as the lookup found it.
    pub coupon: Option<Coupon>,
    /// The delivery package chosen, as the lookup found it.
    pub package: Option<DeliveryPackage>,
}

impl BuyNowCheckout {
    /// The line the checkout is priced as.
    pub open spec fn line(self) -> PriceableLine {
        PriceableLine {
            unit_price: self.product.price,
            quantity: self.quantity,
            flat_discount: self.product.discount,
        }
    }

    /// The subtotal with discount or coupon.
    pub open spec fn cost(self) -> int {
        line_subtotal(self.line(), self.coupon)
    }

    /// The subtotal before any discount.
    pub open spec fn cost_without_discounts(self) -> int {
        base_cost(self.product.price, self.quantity)
    }

    /// The price of the chosen package; nothing without one or without a price.
    pub open spec fn delivery(self) -> int {
        match self.package {
            Some(p) => match p.price {
                Some(v) => v as int,
                None => 0,
            },
            None => 0,
        }
    }

    /// The checkout can be priced: the discount and coupon are in range, and
    /// every amount fits.
    pub open spec fn wf(self) -> bool {
        &&& self.line().wf()
        &&& self.coupon matches Some(c) ==> c.wf()
        &&& self.cost_without_discounts() + self.delivery() <= u64::MAX
    }

    pub fn to_line(&self) -> (r: PriceableLine)
        ensures
            r == self.line(),
    {
        PriceableLine {
            unit_price: self.product.price,
            quantity: self.quantity,
            flat_discount: self.product.discount,
        }
    }
}

/// The subtotal of the checkout with discount or coupon.
pub fn calculate_cost(buy_now: &BuyNowCheckout) -> (r: u64)
    requires
        buy_now.wf(),
    ensures
        r == buy_now.cost(),
{
    price_line(&buy_now.to_line(), buy_now.coupon).subtotal
}

/// The subtotal of the checkout before any discount.
pub fn calculate_cost_without_discounts(buy_now: &BuyNowCheckout) -> (r: u64)
    requires
        buy_now.wf(),
    ensures
        r == buy_now.cost_without_discounts(),
{
    if buy_now.quantity <= 0 {
        return 0;
    }
    buy_now.product.price * buy_now.quantity as u64
}

/// How much the discount or coupon takes off the checkout.
pub fn calculate_coupon_discount(buy_now: &BuyNowCheckout) -> (r: u64)
    requires
        buy_now.wf(),
    ensures
        r == buy_now.cost_without_discounts() - buy_now.cost(),
{
    let cost_with_discounts = calculate_cost(buy_now);
    calculate_cost_without_discounts(buy_now) - cost_with_discounts
}

/// The delivery cost of the checkout.
pub fn calculate_delivery_cost(buy_now: &BuyNowCheckout) -> (r: u64)
    requires
        buy_now.wf(),
    ensures
        r == buy_now.delivery(),
{
    match &buy_now.package {
        Some(package) => match package.price {
            Some(price) => price,
            None => 0,
        },
        None => 0,
    }
}

/// What the checkout costs in all: the subtotal plus delivery.
pub fn total_cost(buy_now: &BuyNowCheckout) -> (r: u64)
    requires
        buy_now.wf(),
    ensures
        r == buy_now.cost() + buy_now.delivery(),
{
    calculate_cost(buy_now) + calculate_delivery_cost(buy_now)
}

/// What the checkout would cost without discounts, delivery included.
pub fn total_cost_without_discounts(buy_now: &BuyNowCheckout) -> (r: u64)
    requires
        buy_now.wf(),
    ensures
        r == buy_now.cost_without_discounts() + buy_now.delivery(),
{
    calculate_cost_without_discounts(buy_now) + calculate_delivery_cost(buy_now)
}

/// Delivery adds to the subtotal and is not discounted: with any other coupon
/// or flat discount, the delivery cost is the same and the total moves only
/// with the subtotal.
pub proof fn lemma_delivery_additive(buy_now: BuyNowCheckout, coupon: Option<Coupon>, discount: Option<u32>)
    ensures
        ({
            let other = BuyNowCheckout {
                product: Product { discount, ..buy_now.product },
                coupon,
                ..buy_now
            };
            &&& other.delivery() == buy_now.delivery()
            &&& other.cost() + other.delivery() - (buy_now.cost() + buy_now.delivery()) == other.cost()
                - buy_now.cost()
        }),
{
}

} // verus!
