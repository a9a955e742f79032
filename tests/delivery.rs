use gateway_lib::delivery::{
    calculate_delivery, get_delivery_info, plan_delivery_info, CartItem, DeliveryLookup, DeliveryMethodId,
    DeliveryPackage,
};
use gateway_lib::error::GatewayError;

fn item(product_id: i32, quantity: i32, method: Option<DeliveryMethodId>) -> CartItem {
    CartItem {
        product_id,
        quantity,
        selected: true,
        comment: String::new(),
        store_id: 1,
        pre_order: false,
        pre_order_days: 0,
        coupon_id: None,
        delivery_method_id: method,
    }
}

fn package(id: i32, price: Option<u64>) -> DeliveryPackage {
    DeliveryPackage { id, name: format!("package {}", id), logo: format!("logo {}", id), price }
}

#[test]
fn delivery_cost_is_price_times_quantity() {
    assert_eq!(calculate_delivery(&package(1, Some(250)), 4), 1000);
    assert_eq!(calculate_delivery(&package(1, None), 4), 0);
    assert_eq!(calculate_delivery(&package(1, Some(250)), 0), 0);
    assert_eq!(calculate_delivery(&package(1, Some(250)), -1), 0);
}

#[test]
fn plan_lists_package_items_in_order() {
    let items = vec![
        item(1, 2, Some(DeliveryMethodId::Package { id: 10 })),
        item(2, 1, None),
        item(3, 5, Some(DeliveryMethodId::Package { id: 11 })),
    ];
    let plan = plan_delivery_info(&items).unwrap();
    assert_eq!(
        plan,
        vec![
            DeliveryLookup { product_id: 1, company_package_id: 10, quantity: 2 },
            DeliveryLookup { product_id: 3, company_package_id: 11, quantity: 5 },
        ]
    );
}

#[test]
fn unsupported_method_fails_the_whole_batch() {
    let items = vec![
        item(1, 2, Some(DeliveryMethodId::Package { id: 10 })),
        item(2, 1, Some(DeliveryMethodId::Pickup { id: 4 })),
        item(3, 5, Some(DeliveryMethodId::Package { id: 11 })),
    ];
    assert!(matches!(plan_delivery_info(&items), Err(GatewayError::UnsupportedDeliveryMethod)));
    let last = vec![
        item(1, 2, Some(DeliveryMethodId::Package { id: 10 })),
        item(2, 1, Some(DeliveryMethodId::ShippingPackage { id: 4 })),
    ];
    assert!(matches!(plan_delivery_info(&last), Err(GatewayError::UnsupportedDeliveryMethod)));
}

#[test]
fn empty_cart_plans_nothing() {
    assert_eq!(plan_delivery_info(&Vec::new()).unwrap(), Vec::new());
}

#[test]
fn delivery_info_prices_each_lookup() {
    let lookups = vec![
        DeliveryLookup { product_id: 1, company_package_id: 10, quantity: 2 },
        DeliveryLookup { product_id: 3, company_package_id: 11, quantity: 5 },
    ];
    let packages = vec![package(10, Some(300)), package(11, None)];
    let info = get_delivery_info(&lookups, &packages);
    assert_eq!(info.len(), 2);
    assert_eq!(info[0].0, 1);
    assert_eq!(info[0].1.company_package_id, 10);
    assert_eq!(info[0].1.name, "package 10");
    assert_eq!(info[0].1.logo, "logo 10");
    assert_eq!(info[0].1.price, 600);
    assert_eq!(info[1].0, 3);
    assert_eq!(info[1].1.price, 0);
}
