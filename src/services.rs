//! The requests behind the billing and stores service clients.
//!
//! Each method gives the request to send; bodies are the JSON text of the
//! caller's input.
use vstd::prelude::*;
use crate::decimal::{push_signed, signed_decimal};
use crate::dispatch::{joined, request, Method, Request, ServiceUrls};
use crate::id::{Model, Service};

verus! {

/// `a/b`.
pub open spec fn slash(a: Seq<char>, b: Seq<char>) -> Seq<char> {
    a + seq!['/'] + b
}

/// Appends `/` and then `tail` to `out`.
fn push_segment(out: &mut String, tail: &str)
    ensures
        final(out)@ == slash(old(out)@, tail@),
{
    out.append("/");
    proof {
        reveal_strlit("/");
    }
    out.append(tail);
    assert(final(out)@ =~= slash(old(out)@, tail@));
}

/// The requests of the billing service.
pub struct BillingServiceImpl<'a> {
    pub urls: &'a ServiceUrls,
}

impl<'a> BillingServiceImpl<'a> {
    pub fn new(urls: &'a ServiceUrls) -> (r: BillingServiceImpl<'a>)
        ensures
            r.urls == urls,
    {
        BillingServiceImpl { urls }
    }

    /// The payment intent of an invoice.
    pub fn payment_intent_by_invoice(&self, invoice_id: &str) -> (r: Request)
        ensures
            r.method == Method::Get,
            r.url@ == joined(
                self.urls.billing@,
                slash(slash(Model::PaymentIntent.path(), Model::Invoice.path()), invoice_id@),
            ),
            r.body is None,
    {
        let mut path = String::from_str(Model::PaymentIntent.to_url());
        push_segment(&mut path, Model::Invoice.to_url());
        push_segment(&mut path, invoice_id);
        request(self.urls, Service::Billing, Method::Get, path.as_str(), None)
    }

    /// Registers a payment card for the current user.
    pub fn create_customer_with_source(&self, body: String) -> (r: Request)
        ensures
            r.method == Method::Post,
            r.url@ == joined(self.urls.billing@, slash(Model::Customer.path(), "with_source"@)),
            r.body == Some(body),
    {
        let mut path = String::from_str(Model::Customer.to_url());
        push_segment(&mut path, "with_source");
        request(self.urls, Service::Billing, Method::Post, path.as_str(), Some(body))
    }

    /// The payment customer of the current user.
    pub fn get_current_customer(&self) -> (r: Request)
        ensures
            r.method == Method::Get,
            r.url@ == joined(self.urls.billing@, Model::Customer.path()),
            r.body is None,
    {
        request(self.urls, Service::Billing, Method::Get, Model::Customer.to_url(), None)
    }

    /// Grants a billing role to a user.
    pub fn add_role_to_user(&self, body: String) -> (r: Request)
        ensures
            r.method == Method::Post,
            r.url@ == joined(self.urls.billing@, Model::Role.path()),
            r.body == Some(body),
    {
        request(self.urls, Service::Billing, Method::Post, Model::Role.to_url(), Some(body))
    }

    /// Takes a billing role from a user.
    pub fn remove_role_from_user(&self, body: String) -> (r: Request)
        ensures
            r.method == Method::Delete,
            r.url@ == joined(self.urls.billing@, Model::Role.path()),
            r.body == Some(body),
    {
        request(self.urls, Service::Billing, Method::Delete, Model::Role.to_url(), Some(body))
    }
}

/// The requests of the stores service.
pub struct StoresServiceImpl<'a> {
    pub urls: &'a ServiceUrls,
}

impl<'a> StoresServiceImpl<'a> {
    pub fn new(urls: &'a ServiceUrls) -> (r: StoresServiceImpl<'a>)
        ensures
            r.urls == urls,
    {
        StoresServiceImpl { urls }
    }

    /// The stores roles of a user.
    pub fn roles(&self, user_id: i32) -> (r: Request)
        ensures
            r.method == Method::Get,
            r.url@ == joined(
                self.urls.stores@,
                slash(slash(Model::Role.path(), "by-user-id"@), signed_decimal(user_id as int)),
            ),
            r.body is None,
    {
        let mut path = String::from_str(Model::Role.to_url());
        push_segment(&mut path, "by-user-id");
        path.append("/");
        proof {
            reveal_strlit("/");
        }
        push_signed(&mut path, user_id as i64);
        assert(path@ =~= slash(slash(Model::Role.path(), "by-user-id"@), signed_decimal(user_id as int)));
        request(self.urls, Service::Stores, Method::Get, path.as_str(), None)
    }

    /// Grants a stores role to a user.
    pub fn add_role_to_user(&self, body: String) -> (r: Request)
        ensures
            r.method == Method::Post,
            r.url@ == joined(self.urls.stores@, Model::Role.path()),
            r.body == Some(body),
    {
        request(self.urls, Service::Stores, Method::Post, Model::Role.to_url(), Some(body))
    }

    /// Takes a stores role from a user.
    pub fn remove_role_from_user(&self, body: String) -> (r: Request)
        ensures
            r.method == Method::Delete,
            r.url@ == joined(self.urls.stores@, Model::Role.path()),
            r.body == Some(body),
    {
        request(self.urls, Service::Stores, Method::Delete, Model::Role.to_url(), Some(body))
    }

    /// The store of a user.
    pub fn get_store_by_user(&self, user_id: i32) -> (r: Request)
        ensures
            r.method == Method::Get,
            r.url@ == joined(
                self.urls.stores@,
                slash(slash(Model::Store.path(), "by_user_id"@), signed_decimal(user_id as int)),
            ),
            r.body is None,
    {
        let mut path = String::from_str(Model::Store.to_url());
        push_segment(&mut path, "by_user_id");
        path.append("/");
        proof {
            reveal_strlit("/");
        }
        push_signed(&mut path, user_id as i64);
        assert(path@ =~= slash(slash(Model::Store.path(), "by_user_id"@), signed_decimal(user_id as int)));
        request(self.urls, Service::Stores, Method::Get, path.as_str(), None)
    }
}

} // verus!
