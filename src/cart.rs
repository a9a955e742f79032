//! Pricing of the products in a cart.
use vstd::prelude::*;
use crate::dispatch::DispatchError;
use crate::delivery::{calculate_delivery, delivery_cost, delivery_fits, DeliveryPackage};
use crate::pricing::{base_cost, line_subtotal, price_line, Coupon, PriceableLine};

verus! {

/// A product in the cart of a user.
#[derive(Clone, Debug)]
pub struct CartProduct {
    pub id: i32,
    pub base_product_id: i32,
    pub name: String,
    pub quantity: i32,
    /// The unit price.
    pub price: u64,
    /// The product's own flat discount, in ten-thousandths.
    pub discount: Option<u32>,
    pub coupon_id: Option<i32>,
    pub company_package_id: Option<i32>,
    pub photo_main: Option<String>,
    pub comment: String,
    pub selected: bool,
    pub pre_order: bool,
    pub pre_order_days: i32,
}

impl CartProduct {
    /// The line the product is priced as.
    pub open spec fn line(self) -> PriceableLine {
        PriceableLine { unit_price: self.price, quantity: self.quantity, flat_discount: self.discount }
    }

    pub fn to_line(&self) -> (r: PriceableLine)
        ensures
            r == self.line(),
    {
        PriceableLine { unit_price: self.price, quantity: self.quantity, flat_discount: self.discount }
    }
}

/// The coupon that counts for the product: the one looked up for its coupon
/// code, and none when it has no code.
pub open spec fn coupon_for(product: CartProduct, coupon: Option<Coupon>) -> Option<Coupon> {
    if product.coupon_id is Some {
        coupon
    } else {
        None
    }
}

/// The coupon a lookup found; a failed lookup counts as no coupon.
pub fn coupon_from_lookup(found: Result<Option<Coupon>, DispatchError>) -> (r: Option<Coupon>)
    ensures
        r == match found {
            Ok(c) => c,
            Err(_) => None::<Coupon>,
        },
{
    match found {
        Ok(c) => c,
        Err(_) => None,
    }
}

/// The subtotal of the product with its discount or coupon.
///
/// `coupon` is what the lookup of the product's coupon code found: none when
/// the code is unknown or the lookup failed, which prices the product as if it
/// had no coupon.
pub fn calculate_product_price(cart_product: &CartProduct, coupon: Option<Coupon>) -> (r: u64)
    requires
        cart_product.line().wf(),
        coupon matches Some(c) ==> c.wf(),
    ensures
        r == line_subtotal(cart_product.line(), coupon_for(*cart_product, coupon)),
{
    let line = cart_product.to_line();
    let counted = if cart_product.coupon_id.is_some() {
        coupon
    } else {
        None
    };
    price_line(&line, counted).subtotal
}

/// The subtotal of the product before any discount.
pub fn calculate_product_price_without_discounts(product: &CartProduct) -> (r: u64)
    requires
        base_cost(product.price, product.quantity) <= u64::MAX,
    ensures
        r == base_cost(product.price, product.quantity),
{
    if product.quantity <= 0 {
        return 0;
    }
    product.price * product.quantity as u64
}

/// How much the discount or coupon takes off the product's subtotal.
pub fn calculate_coupon_discount(product: &CartProduct, coupon: Option<Coupon>) -> (r: u64)
    requires
        product.line().wf(),
        coupon matches Some(c) ==> c.wf(),
    ensures
        r == base_cost(product.price, product.quantity) - line_subtotal(
            product.line(),
            coupon_for(*product, coupon),
        ),
{
    let price_with_discounts = calculate_product_price(product, coupon);
    let line = product.to_line();
    let without = price_line(&line, None).subtotal_without_discount;
    without - price_with_discounts
}

/// The delivery cost of the product with its chosen package.
pub open spec fn product_delivery_cost(product: CartProduct, package: Option<&DeliveryPackage>) -> int {
    match (product.company_package_id, package) {
        (Some(_), Some(p)) => delivery_cost(p.price, product.quantity),
        _ => 0,
    }
}

/// The delivery cost of the product; `package` is the package found for the
/// product's chosen package, and nothing is charged without one.
pub fn calculate_delivery_cost(product: &CartProduct, package: Option<&DeliveryPackage>) -> (r: u64)
    requires
        package matches Some(p) ==> delivery_fits(p.price, product.quantity),
    ensures
        r == product_delivery_cost(*product, package),
{
    match (product.company_package_id, package) {
        (Some(_), Some(p)) => calculate_delivery(p, product.quantity),
        _ => 0,
    }
}

} // verus!
