use gateway_lib::id::{IdError, Model, Service, ID};

#[test]
fn encodes_as_three_decimals() {
    let id = ID::new(Service::Users, Model::User, 42);
    assert_eq!(id.to_string(), "1:1:42");
    let id = ID::new(Service::Delivery, Model::Coupon, 0);
    assert_eq!(id.to_string(), "6:15:0");
}

#[test]
fn decode_of_encode_round_trips() {
    let services = [
        Service::Users,
        Service::Stores,
        Service::Orders,
        Service::Billing,
        Service::Warehouses,
        Service::Delivery,
    ];
    let models = [Model::User, Model::Store, Model::CartProduct, Model::Order, Model::Coupon];
    for service in services.iter() {
        for model in models.iter() {
            for raw in [0, 1, 9, 10, 99, 100, 12345, i32::MAX].iter() {
                let id = ID::new(*service, *model, *raw);
                let text = id.to_string();
                assert_eq!(ID::from_str(&text), Ok(id));
            }
        }
    }
}

#[test]
fn distinct_ids_encode_differently() {
    let a = ID::new(Service::Users, Model::User, 11).to_string();
    let b = ID::new(Service::Users, Model::UserRoles, 1).to_string();
    let c = ID::new(Service::Stores, Model::User, 11).to_string();
    assert_ne!(a, b);
    assert_ne!(a, c);
    assert_ne!(b, c);
}

#[test]
fn malformed_texts_are_refused() {
    for text in [
        "", "1", "1:1", "1:1:", ":1:1", "1::1", "1:1:1:", "1:1:1:1", "a:1:1", "1:1:x", "01:1:1",
        "1:01:1", "1:1:01", "1:1:-1", "1:1:2147483648", " 1:1:1", "1:1:1 ",
    ]
    .iter()
    {
        assert_eq!(ID::from_str(text), Err(IdError::Malformed), "text {:?}", text);
    }
}

#[test]
fn unknown_tags_are_refused() {
    assert_eq!(ID::from_str("0:1:1"), Err(IdError::UnknownTag));
    assert_eq!(ID::from_str("7:1:1"), Err(IdError::UnknownTag));
    assert_eq!(ID::from_str("1:16:1"), Err(IdError::UnknownTag));
    assert_eq!(ID::from_str("1:0:5"), Err(IdError::UnknownTag));
}

#[test]
fn zero_and_largest_numbers_decode() {
    assert_eq!(ID::from_str("3:7:0"), Ok(ID::new(Service::Orders, Model::Order, 0)));
    assert_eq!(
        ID::from_str("2:3:2147483647"),
        Ok(ID::new(Service::Stores, Model::Store, i32::MAX))
    );
}
