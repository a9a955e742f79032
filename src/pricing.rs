//! Pricing of a line: unit price times quantity, less a flat discount or a
//! coupon.
//!
//! Amounts are integers in the currency's minor unit. A flat discount is a
//! fraction of the line in ten-thousandths (`2000` is 20%), a coupon a whole
//! percent. Discount amounts are rounded down to the minor unit.
//!
//! The rules, first match wins:
//! 1. a quantity of zero or less costs nothing;
//! 2. a non-zero flat discount takes that fraction off the whole line;
//! 3. a coupon takes its percent off one unit only;
//! 4. otherwise the line costs unit price times quantity.
use vstd::prelude::*;

verus! {

/// The denominator of a flat discount.
pub const DISCOUNT_SCALE: u32 = 10000;

/// A percent-off promotion, applied to one unit of a line.
#[derive(Clone, Copy, Debug, PartialEq, Eq, Structural)]
pub struct Coupon {
    pub id: i32,
    /// Between 0 and 100.
    pub percent: u32,
}

impl Coupon {
    pub open spec fn wf(self) -> bool {
        self.percent <= 100
    }
}

/// What a line is priced from.
#[derive(Clone, Copy, Debug, PartialEq, Eq, Structural)]
pub struct PriceableLine {
    pub unit_price: u64,
    pub quantity: i32,
    /// A fraction of the line in ten-thousandths, below one whole.
    pub flat_discount: Option<u32>,
}

impl PriceableLine {
    pub open spec fn wf(self) -> bool {
        &&& self.flat_discount matches Some(d) ==> d < DISCOUNT_SCALE
        &&& base_cost(self.unit_price, self.quantity) <= u64::MAX
    }
}

/// The price of a line.
#[derive(Clone, Copy, Debug, PartialEq, Eq, Structural)]
pub struct LinePrice {
    pub subtotal: u64,
    pub subtotal_without_discount: u64,
    pub discount: u64,
}

/// Unit price times quantity; nothing for a quantity of zero or less.
pub open spec fn base_cost(unit_price: u64, quantity: i32) -> int {
    if quantity <= 0 {
        0
    } else {
        unit_price * quantity
    }
}

/// Whether a flat discount is given and is not zero.
pub open spec fn flat_applies(flat_discount: Option<u32>) -> bool {
    flat_discount matches Some(d) && d > 0
}

/// The subtotal of a line under the pricing rules.
pub open spec fn line_subtotal(line: PriceableLine, coupon: Option<Coupon>) -> int {
    let base = base_cost(line.unit_price, line.quantity);
    if line.quantity <= 0 {
        0
    } else if flat_applies(line.flat_discount) {
        base - base * line.flat_discount->0 / (DISCOUNT_SCALE as int)
    } else if coupon is Some {
        base - line.unit_price * coupon->0.percent / 100
    } else {
        base
    }
}

/// The price of a line from the rules, with the coupon that the lookup gave.
pub open spec fn line_price(line: PriceableLine, coupon: Option<Coupon>) -> LinePrice {
    LinePrice {
        subtotal: line_subtotal(line, coupon) as u64,
        subtotal_without_discount: base_cost(line.unit_price, line.quantity) as u64,
        discount: (base_cost(line.unit_price, line.quantity) - line_subtotal(line, coupon)) as u64,
    }
}

/// Prices a line; `coupon` is the coupon the line's code resolved to, if any.
pub fn price_line(line: &PriceableLine, coupon: Option<Coupon>) -> (r: LinePrice)
    requires
        line.wf(),
        coupon matches Some(c) ==> c.wf(),
    ensures
        r == line_price(*line, coupon),
        r.subtotal == line_subtotal(*line, coupon),
        r.subtotal_without_discount == base_cost(line.unit_price, line.quantity),
        r.subtotal + r.discount == r.subtotal_without_discount,
        r.subtotal <= r.subtotal_without_discount,
{
    let without: u64 = if line.quantity <= 0 {
        0
    } else {
        line.unit_price * line.quantity as u64
    };
    let discount: u64 = if line.quantity <= 0 {
        0
    } else {
        match line.flat_discount {
            Some(d) if d > 0 => {
                let base = without as u128;
                assert(base * d <= 0xffff_ffff_ffff_ffff * 10000) by (nonlinear_arith)
                    requires
                        base <= 0xffff_ffff_ffff_ffff,
                        d < 10000,
                ;
                let scaled = base * d as u128;
                assert((scaled as int) / (DISCOUNT_SCALE as int) <= base) by (nonlinear_arith)
                    requires
                        scaled == base * d,
                        d < DISCOUNT_SCALE,
                ;
                (scaled / DISCOUNT_SCALE as u128) as u64
            },
            _ => match coupon {
                Some(c) => {
                    let unit = line.unit_price as u128;
                    assert(unit * c.percent <= 0xffff_ffff_ffff_ffff * 100) by (nonlinear_arith)
                        requires
                            unit <= 0xffff_ffff_ffff_ffff,
                            c.percent <= 100,
                    ;
                    let scaled = unit * c.percent as u128;
                    let q = line.quantity as u128;
                    assert((scaled as int) / 100 <= unit * q) by (nonlinear_arith)
                        requires
                            scaled == unit * c.percent,
                            c.percent <= 100,
                            q >= 1,
                    ;
                    (scaled / 100) as u64
                },
                None => 0,
            },
        }
    };
    let subtotal = without - discount;
    LinePrice { subtotal, subtotal_without_discount: without, discount }
}

/// With no quantity a line costs nothing and its discount is all of its
/// undiscounted subtotal, whatever discount or coupon it carries.
pub proof fn lemma_zero_quantity(line: PriceableLine, coupon: Option<Coupon>)
    requires
        line.quantity == 0,
    ensures
        line_price(line, coupon).subtotal == 0,
        line_price(line, coupon).discount == line_price(line, coupon).subtotal_without_discount,
{
}

/// A non-zero flat discount wins over a coupon: the coupon changes nothing.
pub proof fn lemma_flat_discount_first(line: PriceableLine, coupon: Coupon)
    requires
        flat_applies(line.flat_discount),
    ensures
        line_price(line, Some(coupon)) == line_price(line, None),
        line.quantity > 0 ==> line_subtotal(line, Some(coupon)) == base_cost(line.unit_price, line.quantity)
            - base_cost(line.unit_price, line.quantity) * line.flat_discount->0 / (DISCOUNT_SCALE as int),
{
}

/// A coupon takes its percent off exactly one unit of the line.
pub proof fn lemma_coupon_one_unit(line: PriceableLine, coupon: Coupon)
    requires
        !flat_applies(line.flat_discount),
        line.quantity > 0,
    ensures
        line_subtotal(line, Some(coupon)) == (line.unit_price - line.unit_price * coupon.percent / 100)
            + line.unit_price * (line.quantity - 1),
{
    assert(line.unit_price * line.quantity == line.unit_price + line.unit_price * (line.quantity - 1))
        by (nonlinear_arith);
}

} // verus!
