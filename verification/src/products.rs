//! The token-gated sample resource: a fixed catalogue, served to any request
//! the gateway accepts.

use vstd::prelude::*;

use crate::errors::AuthError;
use crate::gateway::authenticate;
use crate::gateway::gateway_verdict;
use crate::gateway::header_view;
use crate::types::Product;

verus! {

/// Whether a product listing is exactly the fixed catalogue: three items,
/// in this order, with these prices in cents.
pub open spec fn is_sample_catalogue(products: Seq<Product>) -> bool {
    &&& products.len() == 3
    &&& products[0].id@ == "1"@ && products[0].name@ == "Laptop"@ && products[0].price_cents
        == 99999
    &&& products[1].id@ == "2"@ && products[1].name@ == "Mouse"@ && products[1].price_cents == 2999
    &&& products[2].id@ == "3"@ && products[2].name@ == "Keyboard"@ && products[2].price_cents
        == 7999
}

/// The fixed catalogue itself.
pub fn sample_products() -> (r: Vec<Product>)
    ensures
        is_sample_catalogue(r@),
{
    let mut products: Vec<Product> = Vec::new();
    products.push(
        Product { id: String::from_str("1"), name: String::from_str("Laptop"), price_cents: 99999 },
    );
    products.push(
        Product { id: String::from_str("2"), name: String::from_str("Mouse"), price_cents: 2999 },
    );
    products.push(
        Product {
            id: String::from_str("3"),
            name: String::from_str("Keyboard"),
            price_cents: 7999,
        },
    );
    products
}

/// The whole decision of the listing route: authenticate the header, and on
/// success answer exactly the catalogue.
pub fn products_response(header: Option<&str>, secret: &str, now: u64) -> (r: Result<
    Vec<Product>,
    AuthError,
>)
    ensures
        r is Ok <==> gateway_verdict(header_view(header), secret@, now) is Ok,
        r is Ok ==> is_sample_catalogue(r->Ok_0@),
        r is Err ==> r->Err_0 == gateway_verdict(header_view(header), secret@, now)->Err_0,
{
    match authenticate(header, secret, now) {
        Ok(_) => Ok(sample_products()),
        Err(e) => Err(e),
    }
}

} // verus!
