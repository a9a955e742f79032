use gateway_lib::buy_now::{
    calculate_cost, calculate_cost_without_discounts, calculate_coupon_discount as buy_now_discount,
    calculate_delivery_cost as buy_now_delivery_cost, total_cost, total_cost_without_discounts,
    BuyNowCheckout, Product,
};
use gateway_lib::cart::{
    calculate_coupon_discount, calculate_delivery_cost, calculate_product_price,
    calculate_product_price_without_discounts, coupon_from_lookup, CartProduct,
};
use gateway_lib::delivery::DeliveryPackage;
use gateway_lib::dispatch::DispatchError;
use gateway_lib::pricing::{price_line, Coupon, LinePrice, PriceableLine};

fn line(unit_price: u64, quantity: i32, flat_discount: Option<u32>) -> PriceableLine {
    PriceableLine { unit_price, quantity, flat_discount }
}

fn coupon(percent: u32) -> Coupon {
    Coupon { id: 1, percent }
}

fn cart_product(price: u64, quantity: i32, discount: Option<u32>, coupon_id: Option<i32>) -> CartProduct {
    CartProduct {
        id: 1,
        base_product_id: 10,
        name: "shoe".to_string(),
        quantity,
        price,
        discount,
        coupon_id,
        company_package_id: Some(3),
        photo_main: None,
        comment: String::new(),
        selected: true,
        pre_order: false,
        pre_order_days: 0,
    }
}

fn package(price: Option<u64>) -> DeliveryPackage {
    DeliveryPackage { id: 3, name: "post".to_string(), logo: "post.png".to_string(), price }
}

fn checkout(quantity: i32, discount: Option<u32>, percent: Option<u32>, delivery: Option<u64>) -> BuyNowCheckout {
    BuyNowCheckout {
        product: Product {
            id: 1,
            base_product_id: 10,
            is_active: true,
            discount,
            photo_main: None,
            vendor_code: None,
            price: 100,
        },
        quantity,
        coupon: percent.map(coupon),
        package: delivery.map(|p| package(Some(p))),
    }
}

#[test]
fn zero_quantity_costs_nothing() {
    for flat in [None, Some(0), Some(2000)].iter() {
        for c in [None, Some(coupon(10))].iter() {
            let price = price_line(&line(100, 0, *flat), *c);
            assert_eq!(price.subtotal, 0);
            assert_eq!(price.discount, price.subtotal_without_discount);
        }
    }
    let negative = price_line(&line(100, -2, Some(2000)), Some(coupon(50)));
    assert_eq!(negative, LinePrice { subtotal: 0, subtotal_without_discount: 0, discount: 0 });
}

#[test]
fn flat_discount_wins_over_coupon() {
    let both = price_line(&line(50, 2, Some(2000)), Some(coupon(10)));
    let flat_only = price_line(&line(50, 2, Some(2000)), None);
    assert_eq!(both, flat_only);
    assert_eq!(both.subtotal, 80);
}

#[test]
fn coupon_discounts_one_unit() {
    let price = price_line(&line(100, 3, None), Some(coupon(10)));
    assert_eq!(price.subtotal, 290);
    assert_eq!(price.discount, 10);
    assert_eq!(price.subtotal_without_discount, 300);
}

#[test]
fn flat_discount_takes_fraction_of_line() {
    let price = price_line(&line(50, 2, Some(2000)), None);
    assert_eq!(price.subtotal, 80);
    assert_eq!(price.discount, 20);
    assert_eq!(price.subtotal_without_discount, 100);
}

#[test]
fn zero_flat_discount_lets_coupon_apply() {
    let price = price_line(&line(100, 2, Some(0)), Some(coupon(25)));
    assert_eq!(price.subtotal, 175);
}

#[test]
fn no_discount_is_price_times_quantity() {
    let price = price_line(&line(123, 4, None), None);
    assert_eq!(price, LinePrice { subtotal: 492, subtotal_without_discount: 492, discount: 0 });
}

#[test]
fn discounts_round_down() {
    // 3 * 0.3333 of 101 is 100.9899: 100 off.
    let flat = price_line(&line(101, 3, Some(3333)), None);
    assert_eq!(flat.discount, 100);
    assert_eq!(flat.subtotal, 203);
    // 15% of 99 is 14.85: 14 off.
    let c = price_line(&line(99, 1, None), Some(coupon(15)));
    assert_eq!(c.discount, 14);
    assert_eq!(c.subtotal, 85);
}

#[test]
fn full_coupon_frees_one_unit() {
    let price = price_line(&line(40, 2, None), Some(coupon(100)));
    assert_eq!(price.subtotal, 40);
}

#[test]
fn cart_product_price_uses_coupon_only_with_code() {
    let with_code = cart_product(100, 3, None, Some(7));
    assert_eq!(calculate_product_price(&with_code, Some(coupon(10))), 290);
    assert_eq!(calculate_coupon_discount(&with_code, Some(coupon(10))), 10);
    let without_code = cart_product(100, 3, None, None);
    assert_eq!(calculate_product_price(&without_code, Some(coupon(10))), 300);
    assert_eq!(calculate_coupon_discount(&without_code, Some(coupon(10))), 0);
    assert_eq!(calculate_product_price_without_discounts(&with_code), 300);
    assert_eq!(calculate_product_price_without_discounts(&cart_product(100, 0, None, None)), 0);
}

#[test]
fn failed_coupon_lookup_counts_as_no_coupon() {
    let failed: Result<Option<Coupon>, DispatchError> =
        Err(DispatchError::Transport { url: "http://x".to_string(), cause: "refused".to_string() });
    let found = coupon_from_lookup(failed);
    assert_eq!(found, None);
    let product = cart_product(100, 3, None, Some(7));
    assert_eq!(calculate_product_price(&product, found), 300);
    assert_eq!(coupon_from_lookup(Ok(Some(coupon(10)))), Some(coupon(10)));
}

#[test]
fn cart_delivery_cost_is_per_unit() {
    let product = cart_product(100, 3, None, None);
    assert_eq!(calculate_delivery_cost(&product, Some(&package(Some(7)))), 21);
    assert_eq!(calculate_delivery_cost(&product, Some(&package(None))), 0);
    assert_eq!(calculate_delivery_cost(&product, None), 0);
    let mut no_package = product.clone();
    no_package.company_package_id = None;
    assert_eq!(calculate_delivery_cost(&no_package, Some(&package(Some(7)))), 0);
    let none_bought = cart_product(100, 0, None, None);
    assert_eq!(calculate_delivery_cost(&none_bought, Some(&package(Some(7)))), 0);
}

#[test]
fn delivery_adds_to_discounted_subtotal() {
    let b = checkout(3, None, Some(10), Some(15));
    assert_eq!(calculate_cost(&b), 290);
    assert_eq!(buy_now_delivery_cost(&b), 15);
    assert_eq!(total_cost(&b), 305);
    assert_eq!(total_cost(&b), calculate_cost(&b) + buy_now_delivery_cost(&b));
    assert_eq!(calculate_cost_without_discounts(&b), 300);
    assert_eq!(total_cost_without_discounts(&b), 315);
    assert_eq!(buy_now_discount(&b), 10);
    let no_coupon = checkout(3, None, None, Some(15));
    assert_eq!(buy_now_delivery_cost(&no_coupon), 15);
    assert_eq!(total_cost(&no_coupon), 315);
}

#[test]
fn buy_now_flat_discount_and_free_delivery() {
    let b = checkout(2, Some(2000), Some(10), None);
    assert_eq!(calculate_cost(&b), 160);
    assert_eq!(buy_now_delivery_cost(&b), 0);
    assert_eq!(total_cost(&b), 160);
    assert_eq!(buy_now_discount(&b), 40);
}
