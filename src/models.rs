//! Orders, their status changes, and the billing records the gateway passes on.
//!
//! Amounts are integers in the currency's minor unit.
use vstd::prelude::*;

verus! {

/// Where an order stands.
#[derive(Clone, Copy, Debug, PartialEq, Eq, Structural)]
pub enum OrderStatus {
    New,
    Paid,
    InProcessing,
    Cancelled,
    Sent,
    Complete,
}

/// A postal address as the order services store it.
#[derive(Clone, Debug, PartialEq, Eq)]
pub struct AddressInput {
    pub country: Option<String>,
    pub administrative_area_level_1: Option<String>,
    pub administrative_area_level_2: Option<String>,
    pub locality: Option<String>,
    pub political: Option<String>,
    pub postal_code: Option<String>,
    pub route: Option<String>,
    pub street_number: Option<String>,
    pub address: Option<String>,
    pub place_id: Option<String>,
}

/// An order, as the orders service returns it.
#[derive(Clone, Debug)]
pub struct Order {
    pub id: i32,
    pub status: OrderStatus,
    pub customer_id: i32,
    pub product_id: i32,
    pub quantity: i32,
    pub store_id: i32,
    pub price: u64,
    pub receiver_name: String,
    pub slug: i32,
    pub payment_status: bool,
    pub delivery_company: String,
    pub track_id: Option<String>,
    pub creation_time: String,
    pub administrative_area_level_1: Option<String>,
    pub administrative_area_level_2: Option<String>,
    pub country: String,
    pub locality: Option<String>,
    pub political: Option<String>,
    pub postal_code: String,
    pub route: Option<String>,
    pub street_number: Option<String>,
    pub address: Option<String>,
    pub place_id: Option<String>,
}

/// The request to create orders from the cart.
#[derive(Clone, Debug, PartialEq, Eq)]
pub struct CreateOrderInput {
    pub client_mutation_id: String,
    pub customer_comments: Option<String>,
    pub address_full: AddressInput,
    pub receiver_name: String,
}

/// The price a seller asks for a product.
#[derive(Clone, Debug, PartialEq, Eq)]
pub struct ProductSellerPrice {
    pub price: u64,
    pub currency: String,
}

/// What the orders service is asked to create.
#[derive(Clone, Debug, PartialEq, Eq)]
pub struct CreateOrder {
    pub customer_id: i32,
    pub comments: Option<String>,
    pub address: AddressInput,
    pub receiver_name: String,
    /// Each product of the cart with the price it is sold at.
    pub cart_products: Vec<(i32, ProductSellerPrice)>,
}

/// The request to mark an order as sent.
#[derive(Clone, Debug, PartialEq, Eq)]
pub struct OrderStatusDeliveryInput {
    pub client_mutation_id: String,
    /// The global identifier of the order.
    pub id: String,
    pub track_id: String,
    pub comments: String,
}

/// The status change sent to the orders service for a shipped order.
#[derive(Clone, Debug, PartialEq, Eq)]
pub struct OrderStatusDelivery {
    pub status: OrderStatus,
    pub track_id: String,
    pub comments: String,
}

impl From<OrderStatusDeliveryInput> for OrderStatusDelivery {
    fn from(order: OrderStatusDeliveryInput) -> (r: Self) {
        OrderStatusDelivery {
            status: OrderStatus::Sent,
            track_id: order.track_id,
            comments: order.comments,
        }
    }
}

impl vstd::std_specs::convert::FromSpecImpl<OrderStatusDeliveryInput> for OrderStatusDelivery {
    open spec fn obeys_from_spec() -> bool {
        true
    }

    open spec fn from_spec(order: OrderStatusDeliveryInput) -> Self {
        OrderStatusDelivery {
            status: OrderStatus::Sent,
            track_id: order.track_id,
            comments: order.comments,
        }
    }
}

/// The request to mark an order as paid.
#[derive(Clone, Debug, PartialEq, Eq)]
pub struct OrderStatusPaidInput {
    pub client_mutation_id: String,
    /// The global identifier of the order.
    pub id: String,
    pub comments: String,
}

/// The status change sent to the orders service for a paid order.
#[derive(Clone, Debug, PartialEq, Eq)]
pub struct OrderStatusPaid {
    pub status: OrderStatus,
    pub comments: String,
}

impl From<OrderStatusPaidInput> for OrderStatusPaid {
    fn from(order: OrderStatusPaidInput) -> (r: Self) {
        OrderStatusPaid { status: OrderStatus::Paid, comments: order.comments }
    }
}

impl vstd::std_specs::convert::FromSpecImpl<OrderStatusPaidInput> for OrderStatusPaid {
    open spec fn obeys_from_spec() -> bool {
        true
    }

    open spec fn from_spec(order: OrderStatusPaidInput) -> Self {
        OrderStatusPaid { status: OrderStatus::Paid, comments: order.comments }
    }
}

/// The request to mark an order as complete.
#[derive(Clone, Debug, PartialEq, Eq)]
pub struct OrderStatusCompleteInput {
    pub client_mutation_id: String,
    /// The global identifier of the order.
    pub id: String,
    pub comments: String,
}

/// The status change sent to the orders service for a completed order.
#[derive(Clone, Debug, PartialEq, Eq)]
pub struct OrderStatusComplete {
    pub status: OrderStatus,
    pub comments: String,
}

impl From<OrderStatusCompleteInput> for OrderStatusComplete {
    fn from(order: OrderStatusCompleteInput) -> (r: Self) {
        OrderStatusComplete { status: OrderStatus::Complete, comments: order.comments }
    }
}

impl vstd::std_specs::convert::FromSpecImpl<OrderStatusCompleteInput> for OrderStatusComplete {
    open spec fn obeys_from_spec() -> bool {
        true
    }

    open spec fn from_spec(order: OrderStatusCompleteInput) -> Self {
        OrderStatusComplete { status: OrderStatus::Complete, comments: order.comments }
    }
}

/// One step of an order's history.
#[derive(Clone, Debug)]
pub struct OrderHistoryItem {
    pub status: OrderStatus,
    pub user_id: i32,
    pub comments: Option<String>,
    pub creation_time: String,
}

/// The request to register a payment card for the current user.
#[derive(Clone, Debug, PartialEq, Eq)]
pub struct CreateCustomerWithSourceInput {
    pub client_mutation_id: String,
    pub email: Option<String>,
    /// The card token issued by the payment provider.
    pub card_token: String,
}

/// Where a payment intent stands at the payment provider.
#[derive(Clone, Copy, Debug, PartialEq, Eq, Structural)]
pub enum PaymentIntentStatus {
    RequiresSource,
    RequiresConfirmation,
    RequiresSourceAction,
    Processing,
    RequiresCapture,
    Canceled,
    Succeeded,
    Other,
}

/// A payment intent for an invoice.
#[derive(Clone, Debug)]
pub struct PaymentIntent {
    pub id: String,
    pub invoice_id: String,
    pub amount: u64,
    pub amount_received: u64,
    pub client_secret: Option<String>,
    pub currency: String,
    pub last_payment_error_message: Option<String>,
    pub receipt_email: Option<String>,
    pub charge_id: Option<String>,
    pub status: PaymentIntentStatus,
}

/// The brand of a payment card.
#[derive(Clone, Copy, Debug, PartialEq, Eq, Structural)]
pub enum CardBrand {
    AmericanExpress,
    DinersClub,
    Discover,
    JCB,
    Visa,
    MasterCard,
    UnionPay,
    Unknown,
}

/// A payment card on file.
#[derive(Clone, Debug)]
pub struct Card {
    pub id: String,
    pub brand: CardBrand,
    pub country: String,
    pub customer: Option<String>,
    pub exp_month: u32,
    pub exp_year: u32,
    pub last4: String,
    pub name: Option<String>,
}

/// A customer at the payment provider.
#[derive(Clone, Debug)]
pub struct Customer {
    pub id: String,
    pub user_id: i32,
    pub email: Option<String>,
    pub cards: Vec<Card>,
}

} // verus!
