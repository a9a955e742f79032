//! Outbound requests to the backend services.
//!
//! A request is resolved here to its method, full URL and optional JSON body;
//! the transport that sends it hands back the status and body, which are
//! classified here into a body to decode or a typed failure.
use vstd::prelude::*;
use crate::decimal::{push_decimal, push_signed, signed_decimal, decimal};
use crate::id::{ID, Model, Service};

verus! {

/// The HTTP method of an outbound request.
#[derive(Clone, Copy, Debug, PartialEq, Eq, Structural)]
pub enum Method {
    Get,
    Post,
    Put,
    Delete,
}

/// The base URL of each backend service, from configuration.
#[derive(Clone, Debug)]
pub struct ServiceUrls {
    pub users: String,
    pub stores: String,
    pub orders: String,
    pub billing: String,
    pub warehouses: String,
    pub delivery: String,
}

impl ServiceUrls {
    pub open spec fn url_of(&self, service: Service) -> Seq<char> {
        match service {
            Service::Users => self.users@,
            Service::Stores => self.stores@,
            Service::Orders => self.orders@,
            Service::Billing => self.billing@,
            Service::Warehouses => self.warehouses@,
            Service::Delivery => self.delivery@,
        }
    }

    /// The base URL of `service`.
    pub fn service_url(&self, service: Service) -> (r: &String)
        ensures
            r@ == self.url_of(service),
    {
        match service {
            Service::Users => &self.users,
            Service::Stores => &self.stores,
            Service::Orders => &self.orders,
            Service::Billing => &self.billing,
            Service::Warehouses => &self.warehouses,
            Service::Delivery => &self.delivery,
        }
    }
}

impl Model {
    /// The path segment under which the services serve this kind of entity.
    pub open spec fn path(self) -> Seq<char> {
        match self {
            Model::User => "users"@,
            Model::UserRoles => "user_roles"@,
            Model::Store => "stores"@,
            Model::Product => "products"@,
            Model::BaseProduct => "base_products"@,
            Model::CartProduct => "cart_products"@,
            Model::Order => "orders"@,
            Model::Invoice => "invoices"@,
            Model::PaymentIntent => "payment_intents"@,
            Model::Customer => "customers"@,
            Model::Role => "roles"@,
            Model::CompanyPackage => "companies_packages"@,
            Model::Warehouse => "warehouses"@,
            Model::Stock => "stocks"@,
            Model::Coupon => "coupons"@,
        }
    }

    pub fn to_url(&self) -> (r: &'static str)
        ensures
            r@ == self.path(),
    {
        match self {
            Model::User => "users",
            Model::UserRoles => "user_roles",
            Model::Store => "stores",
            Model::Product => "products",
            Model::BaseProduct => "base_products",
            Model::CartProduct => "cart_products",
            Model::Order => "orders",
            Model::Invoice => "invoices",
            Model::PaymentIntent => "payment_intents",
            Model::Customer => "customers",
            Model::Role => "roles",
            Model::CompanyPackage => "companies_packages",
            Model::Warehouse => "warehouses",
            Model::Stock => "stocks",
            Model::Coupon => "coupons",
        }
    }
}

/// A request ready for the transport.
#[derive(Clone, Debug)]
pub struct Request {
    pub method: Method,
    pub url: String,
    pub body: Option<String>,
}

/// Why an outbound call failed.
#[derive(Clone, Debug)]
pub enum DispatchError {
    /// The service could not be reached (connection, name resolution, timeout).
    Transport { url: String, cause: String },
    /// The service answered with a status outside 200..=299.
    Status { url: String, code: u16, body: String },
    /// The response body does not have the expected shape.
    Decode { url: String, cause: String },
    /// The outbound body could not be encoded.
    Serialize { cause: String },
}

/// `base/path`.
pub open spec fn joined(base: Seq<char>, path: Seq<char>) -> Seq<char> {
    base + seq!['/'] + path
}

/// Appends `/` to `out`.
fn push_slash(out: &mut String)
    ensures
        final(out)@ == old(out)@ + seq!['/'],
{
    out.append("/");
    proof {
        reveal_strlit("/");
    }
    assert(final(out)@ =~= old(out)@ + seq!['/']);
}

/// The request for `path` on `service`, with `body` sent as it is.
pub fn request(
    urls: &ServiceUrls,
    service: Service,
    method: Method,
    path: &str,
    body: Option<String>,
) -> (r: Request)
    ensures
        r.method == method,
        r.url@ == joined(urls.url_of(service), path@),
        r.body == body,
{
    let mut url = urls.service_url(service).clone();
    push_slash(&mut url);
    url.append(path);
    Request { method, url, body }
}

/// `model/raw_id`: the path of one entity.
pub open spec fn entity_path(model: Model, raw_id: int) -> Seq<char> {
    model.path() + seq!['/'] + signed_decimal(raw_id)
}

/// The path of the entity `raw_id` of kind `model`.
pub fn entity_path_of(model: Model, raw_id: i32) -> (r: String)
    ensures
        r@ == entity_path(model, raw_id as int),
{
    let mut out = String::from_str(model.to_url());
    push_slash(&mut out);
    push_signed(&mut out, raw_id as i64);
    assert(out@ =~= entity_path(model, raw_id as int));
    out
}

/// `model?offset=<offset>&count=<count>`: the path of a slice of a collection.
pub open spec fn list_path(model: Model, offset: nat, count: nat) -> Seq<char> {
    model.path() + "?offset="@ + decimal(offset) + "&count="@ + decimal(count)
}

/// The path of `count` entities of kind `model` from `offset` on.
pub fn list_path_of(model: Model, offset: u64, count: u64) -> (r: String)
    ensures
        r@ == list_path(model, offset as nat, count as nat),
{
    let mut out = String::from_str(model.to_url());
    out.append("?offset=");
    push_decimal(&mut out, offset);
    out.append("&count=");
    push_decimal(&mut out, count);
    assert(out@ =~= list_path(model, offset as nat, count as nat));
    out
}

impl ID {
    /// The URL of the entity that the identifier names.
    pub fn url(&self, urls: &ServiceUrls) -> (r: String)
        ensures
            r@ == joined(urls.url_of(self.service), entity_path(self.model, self.raw_id as int)),
    {
        let path = entity_path_of(self.model, self.raw_id);
        request(urls, self.service, Method::Get, path.as_str(), None).url
    }
}

/// Whether a status code means success.
pub open spec fn is_success(code: u16) -> bool {
    200 <= code <= 299
}

/// Sorts a response into the body to decode or a status failure.
pub fn classify_response(url: String, code: u16, body: String) -> (r: Result<String, DispatchError>)
    ensures
        is_success(code) ==> r == Ok::<String, DispatchError>(body),
        !is_success(code) ==> r == Err::<String, DispatchError>(
            DispatchError::Status { url, code, body },
        ),
{
    if 200 <= code && code <= 299 {
        Ok(body)
    } else {
        Err(DispatchError::Status { url, code, body })
    }
}

/// The attributes of a product; a failed fetch counts as none.
pub fn attributes_or_empty<T>(fetched: Result<Vec<T>, DispatchError>) -> (r: Vec<T>)
    ensures
        fetched matches Ok(v) ==> r@ == v@,
        fetched is Err ==> r@.len() == 0,
{
    match fetched {
        Ok(v) => v,
        Err(_) => Vec::new(),
    }
}

} // verus!
