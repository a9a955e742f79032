use gateway_lib::models::{
    OrderStatus, OrderStatusComplete, OrderStatusCompleteInput, OrderStatusDelivery, OrderStatusDeliveryInput,
    OrderStatusPaid, OrderStatusPaidInput,
};

#[test]
fn delivery_input_becomes_sent_status() {
    let input = OrderStatusDeliveryInput {
        client_mutation_id: "m".to_string(),
        id: "3:7:1".to_string(),
        track_id: "TRACK".to_string(),
        comments: "on its way".to_string(),
    };
    let change = OrderStatusDelivery::from(input);
    assert_eq!(
        change,
        OrderStatusDelivery {
            status: OrderStatus::Sent,
            track_id: "TRACK".to_string(),
            comments: "on its way".to_string()
        }
    );
}

#[test]
fn paid_input_becomes_paid_status() {
    let input = OrderStatusPaidInput {
        client_mutation_id: "m".to_string(),
        id: "3:7:1".to_string(),
        comments: "paid by card".to_string(),
    };
    let change: OrderStatusPaid = input.into();
    assert_eq!(change.status, OrderStatus::Paid);
    assert_eq!(change.comments, "paid by card");
}

#[test]
fn complete_input_becomes_complete_status() {
    let input = OrderStatusCompleteInput {
        client_mutation_id: "m".to_string(),
        id: "3:7:1".to_string(),
        comments: "done".to_string(),
    };
    let change = OrderStatusComplete::from(input);
    assert_eq!(change.status, OrderStatus::Complete);
    assert_eq!(change.comments, "done");
}
