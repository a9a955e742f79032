//! Delivery costs of cart lines and chosen packages.
//!
//! Delivery is priced apart from the goods: no discount or coupon touches it.
use vstd::prelude::*;
use crate::error::GatewayError;

verus! {

/// A delivery package offered for a product, as the delivery service returns it.
#[derive(Clone, Debug)]
pub struct DeliveryPackage {
    pub id: i32,
    pub name: String,
    pub logo: String,
    /// The price per unit delivered; none when it is free or not set.
    pub price: Option<u64>,
}

/// The delivery cost of `quantity` units at `price` per unit.
pub open spec fn delivery_cost(price: Option<u64>, quantity: i32) -> int {
    if quantity <= 0 {
        0
    } else {
        match price {
            Some(p) => p * quantity,
            None => 0,
        }
    }
}

/// Whether the delivery cost of `quantity` units at `price` fits an amount.
pub open spec fn delivery_fits(price: Option<u64>, quantity: i32) -> bool {
    delivery_cost(price, quantity) <= u64::MAX
}

/// The cost of delivering `quantity` units with `package`.
pub fn calculate_delivery(package: &DeliveryPackage, quantity: i32) -> (r: u64)
    requires
        delivery_fits(package.price, quantity),
    ensures
        r == delivery_cost(package.price, quantity),
{
    if quantity <= 0 {
        return 0;
    }
    match package.price {
        Some(p) => p * quantity as u64,
        None => 0,
    }
}

/// How a cart item is to be delivered.
#[derive(Clone, Copy, Debug, PartialEq, Eq, Structural)]
pub enum DeliveryMethodId {
    /// A package of a delivery company.
    Package { id: i32 },
    /// Pickup at a point of the store.
    Pickup { id: i32 },
    /// A shipping package of the store.
    ShippingPackage { id: i32 },
}

/// An item of a cart, as the orders service holds it.
#[derive(Clone, Debug)]
pub struct CartItem {
    pub product_id: i32,
    pub quantity: i32,
    pub selected: bool,
    pub comment: String,
    pub store_id: i32,
    pub pre_order: bool,
    pub pre_order_days: i32,
    pub coupon_id: Option<i32>,
    pub delivery_method_id: Option<DeliveryMethodId>,
}

/// A package to look up for a cart item: the product and the chosen package.
#[derive(Clone, Copy, Debug, PartialEq, Eq, Structural)]
pub struct DeliveryLookup {
    pub product_id: i32,
    pub company_package_id: i32,
    pub quantity: i32,
}

/// The delivery chosen for one product of a cart, priced.
#[derive(Clone, Debug)]
pub struct DeliveryInfo {
    pub company_package_id: i32,
    pub name: String,
    pub logo: String,
    pub price: u64,
}

/// The item's delivery method is set and is not a package.
pub open spec fn is_unsupported(item: CartItem) -> bool {
    item.delivery_method_id matches Some(m) && !(m is Package)
}

/// The lookup a cart item asks for, if it chose a package.
pub open spec fn lookup_of(item: CartItem) -> Option<DeliveryLookup> {
    match item.delivery_method_id {
        Some(DeliveryMethodId::Package { id }) => Some(
            DeliveryLookup { product_id: item.product_id, company_package_id: id, quantity: item.quantity },
        ),
        _ => None,
    }
}

/// The lookups of the items that chose a package, in their order.
pub open spec fn lookups(items: Seq<CartItem>) -> Seq<DeliveryLookup>
    decreases items.len(),
{
    if items.len() == 0 {
        Seq::empty()
    } else {
        let rest = lookups(items.drop_last());
        match lookup_of(items.last()) {
            Some(l) => rest.push(l),
            None => rest,
        }
    }
}

/// The packages to look up for a cart, or the failure of the whole batch when
/// any item asks for a delivery method that is not supported.
pub fn plan_delivery_info(cart_items: &Vec<CartItem>) -> (r: Result<Vec<DeliveryLookup>, GatewayError>)
    ensures
        r is Err <==> exists|i: int| 0 <= i < cart_items@.len() && is_unsupported(#[trigger] cart_items@[i]),
        r matches Err(e) ==> e is UnsupportedDeliveryMethod,
        r matches Ok(v) ==> v@ == lookups(cart_items@),
{
    let mut out: Vec<DeliveryLookup> = Vec::new();
    let mut i: usize = 0;
    while i < cart_items.len()
        invariant
            i <= cart_items@.len(),
            out@ == lookups(cart_items@.subrange(0, i as int)),
            forall|k: int| 0 <= k < i ==> !is_unsupported(#[trigger] cart_items@[k]),
        decreases cart_items@.len() - i,
    {
        let item = &cart_items[i];
        let ghost pre = cart_items@.subrange(0, i as int);
        let ghost cur = cart_items@.subrange(0, i as int + 1);
        assert(cur.drop_last() =~= pre);
        assert(cur.last() == *item);
        match item.delivery_method_id {
            Some(DeliveryMethodId::Package { id }) => {
                out.push(
                    DeliveryLookup { product_id: item.product_id, company_package_id: id, quantity: item.quantity },
                );
            },
            Some(_) => {
                return Err(GatewayError::UnsupportedDeliveryMethod);
            },
            None => {},
        }
        i = i + 1;
    }
    assert(cart_items@.subrange(0, i as int) =~= cart_items@);
    Ok(out)
}

/// The delivery of each looked-up product, priced, with the package that the
/// lookup at the same position found.
pub fn get_delivery_info(lookups: &Vec<DeliveryLookup>, packages: &Vec<DeliveryPackage>) -> (r: Vec<
    (i32, DeliveryInfo),
>)
    requires
        lookups@.len() == packages@.len(),
        forall|i: int|
            0 <= i < lookups@.len() ==> delivery_fits(
                (#[trigger] packages@[i]).price,
                lookups@[i].quantity,
            ),
    ensures
        r@.len() == lookups@.len(),
        forall|i: int|
            0 <= i < r@.len() ==> {
                &&& (#[trigger] r@[i]).0 == lookups@[i].product_id
                &&& r@[i].1.company_package_id == lookups@[i].company_package_id
                &&& r@[i].1.name@ == packages@[i].name@
                &&& r@[i].1.logo@ == packages@[i].logo@
                &&& r@[i].1.price == delivery_cost(packages@[i].price, lookups@[i].quantity)
            },
{
    let mut out: Vec<(i32, DeliveryInfo)> = Vec::new();
    let mut i: usize = 0;
    while i < lookups.len()
        invariant
            i <= lookups@.len(),
            lookups@.len() == packages@.len(),
            out@.len() == i,
            forall|k: int|
                0 <= k < lookups@.len() ==> delivery_fits(
                    (#[trigger] packages@[k]).price,
                    lookups@[k].quantity,
                ),
            forall|k: int|
                0 <= k < i ==> {
                    &&& (#[trigger] out@[k]).0 == lookups@[k].product_id
                    &&& out@[k].1.company_package_id == lookups@[k].company_package_id
                    &&& out@[k].1.name@ == packages@[k].name@
                    &&& out@[k].1.logo@ == packages@[k].logo@
                    &&& out@[k].1.price == delivery_cost(packages@[k].price, lookups@[k].quantity)
                },
        decreases lookups@.len() - i,
    {
        let lookup = &lookups[i];
        let package = &packages[i];
        let price = calculate_delivery(package, lookup.quantity);
        let info = DeliveryInfo {
            company_package_id: lookup.company_package_id,
            name: package.name.clone(),
            logo: package.logo.clone(),
            price,
        };
        out.push((lookup.product_id, info));
        i = i + 1;
    }
    out
}

} // verus!
