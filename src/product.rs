use vstd::prelude::*;
use vstd::string::StringExecFns;

use crate::error::StoreFailure;

verus! {

/// A decimal amount `mantissa / 10^scale`, as a decimal number type stores it.
#[derive(Debug, Clone, Copy, PartialEq, Eq, Structural)]
pub struct Price {
    pub mantissa: i128,
    pub scale: u32,
}

/// A product; timestamps are microseconds since the Unix epoch.
#[derive(Debug, Clone)]
pub struct Product {
    pub id: u128,
    pub name: String,
    pub description: String,
    pub price: Price,
    pub stock: i32,
    pub created_at: i64,
    pub updated_at: i64,
}

/// The body of a request that creates a product.
#[derive(Debug, Clone)]
pub struct CreateProductSchema {
    pub name: String,
    pub description: String,
    pub price: Price,
    pub stock: i32,
}

/// The body of a request that updates a product; absent fields stay as they are.
#[derive(Debug, Clone)]
pub struct UpdateProductSchema {
    pub name: Option<String>,
    pub description: Option<String>,
    pub price: Option<Price>,
    pub stock: Option<i32>,
}

/// A rule of product input that a request broke.
#[derive(Debug, Clone, Copy, PartialEq, Eq, Structural)]
pub enum FieldError {
    NameRequired,
    DescriptionRequired,
    PriceNotPositive,
    StockNegative,
}

/// Failures of the product endpoints.
#[derive(Debug, Clone)]
pub enum ProductError {
    /// The input broke the listed rules, in field order.
    Invalid(Vec<FieldError>),
    /// No product has the requested id.
    NotFound,
    /// The store failed.
    Internal,
}

pub open spec fn price_positive(p: Price) -> bool {
    p.mantissa > 0
}

/// The rules that a creation request breaks, in field order.
pub open spec fn create_violations(b: CreateProductSchema) -> Seq<FieldError> {
    (if b.name@.len() == 0 { seq![FieldError::NameRequired] } else { seq![] })
        + (if b.description@.len() == 0 { seq![FieldError::DescriptionRequired] } else { seq![] })
        + (if !price_positive(b.price) { seq![FieldError::PriceNotPositive] } else { seq![] })
        + (if b.stock < 0 { seq![FieldError::StockNegative] } else { seq![] })
}

pub open spec fn update_price_ok(b: UpdateProductSchema) -> bool {
    match b.price {
        Some(p) => price_positive(p),
        None => true,
    }
}

pub open spec fn status_of_product_error(e: ProductError) -> u16 {
    match e {
        ProductError::Invalid(_) => 400,
        ProductError::NotFound => 404,
        ProductError::Internal => 500,
    }
}

pub open spec fn field_message(e: FieldError) -> Seq<char> {
    match e {
        FieldError::NameRequired => "Name is required"@,
        FieldError::DescriptionRequired => "Description is required"@,
        FieldError::PriceNotPositive => "Price must be positive"@,
        FieldError::StockNegative => "Stock must be positive"@,
    }
}

/// The messages of the broken rules `v`, joined by ", ".
pub open spec fn field_messages(v: Seq<FieldError>) -> Seq<char>
    decreases v.len(),
{
    if v.len() == 0 {
        Seq::empty()
    } else if v.len() == 1 {
        field_message(v[0])
    } else {
        field_messages(v.drop_last()) + ", "@ + field_message(v.last())
    }
}

impl FieldError {
    /// The message shown for this broken rule.
    pub fn message(&self) -> (r: &'static str)
        ensures
            r@ == field_message(*self),
    {
        match self {
            FieldError::NameRequired => "Name is required",
            FieldError::DescriptionRequired => "Description is required",
            FieldError::PriceNotPositive => "Price must be positive",
            FieldError::StockNegative => "Stock must be positive",
        }
    }
}

pub open spec fn same_product(q: Product, p: Product) -> bool {
    &&& q.id == p.id
    &&& q.name@ == p.name@
    &&& q.description@ == p.description@
    &&& q.price == p.price
    &&& q.stock == p.stock
    &&& q.created_at == p.created_at
    &&& q.updated_at == p.updated_at
}

impl ProductError {
    /// The message shown to the client: each broken rule's message for invalid input,
    /// a fixed text otherwise.
    pub fn message(&self) -> (r: String)
        ensures
            match *self {
                ProductError::Invalid(v) => r@ == "Validation error: "@ + field_messages(v@),
                ProductError::NotFound => r@ == "Product not found"@,
                ProductError::Internal => r@ == "Something went wrong"@,
            },
    {
        match self {
            ProductError::Invalid(v) => {
                let mut s = String::from_str("Validation error: ");
                let mut i: usize = 0;
                while i < v.len()
                    invariant
                        i <= v@.len(),
                        s@ == "Validation error: "@ + field_messages(v@.subrange(0, i as int)),
                    decreases v@.len() - i,
                {
                    if i > 0 {
                        s.append(", ");
                    }
                    s.append(v[i].message());
                    proof {
                        assert(v@.subrange(0, i + 1).drop_last() =~= v@.subrange(0, i as int));
                    }
                    i = i + 1;
                }
                assert(v@.subrange(0, v@.len() as int) =~= v@);
                s
            },
            ProductError::NotFound => String::from_str("Product not found"),
            ProductError::Internal => String::from_str("Something went wrong"),
        }
    }

    /// The HTTP status code of this error.
    pub fn status(&self) -> (r: u16)
        ensures
            r == status_of_product_error(*self),
    {
        match self {
            ProductError::Invalid(_) => 400,
            ProductError::NotFound => 404,
            ProductError::Internal => 500,
        }
    }
}

/// A price must be greater than zero.
pub fn validate_price(price: &Price) -> (r: Result<(), FieldError>)
    ensures
        r is Ok <==> price_positive(*price),
        r matches Err(e) ==> e == FieldError::PriceNotPositive,
{
    if price.mantissa <= 0 {
        Err(FieldError::PriceNotPositive)
    } else {
        Ok(())
    }
}

impl CreateProductSchema {
    /// Checks every rule of a creation request: a non-empty name and description, a
    /// positive price and a non-negative stock. Lists each rule broken.
    pub fn validate(&self) -> (r: Result<(), Vec<FieldError>>)
        ensures
            r is Ok <==> create_violations(*self).len() == 0,
            r matches Err(v) ==> v@ == create_violations(*self),
    {
        let mut v: Vec<FieldError> = Vec::new();
        if self.name.as_str().is_empty() {
            v.push(FieldError::NameRequired);
        }
        if self.description.as_str().is_empty() {
            v.push(FieldError::DescriptionRequired);
        }
        if validate_price(&self.price).is_err() {
            v.push(FieldError::PriceNotPositive);
        }
        if self.stock < 0 {
            v.push(FieldError::StockNegative);
        }
        assert(v@ =~= create_violations(*self));
        if v.len() == 0 {
            Ok(())
        } else {
            Err(v)
        }
    }
}

impl UpdateProductSchema {
    /// A new price, where one is given, must be positive.
    pub fn validate_price(&self) -> (r: Result<(), FieldError>)
        ensures
            r is Ok <==> update_price_ok(*self),
            r matches Err(e) ==> e == FieldError::PriceNotPositive,
    {
        match &self.price {
            Some(p) => validate_price(p),
            None => Ok(()),
        }
    }
}

/// The product row to insert for a creation request, once the request is valid; a fresh
/// `id` and the time `now` come from the caller.
pub fn create_product(body: &CreateProductSchema, id: u128, now: i64) -> (r: Result<Product, ProductError>)
    ensures
        create_violations(*body).len() == 0 ==> (r matches Ok(p) && p.id == id && p.name@
            == body.name@ && p.description@ == body.description@ && p.price == body.price
            && p.stock == body.stock && p.created_at == now && p.updated_at == now),
        create_violations(*body).len() > 0 ==> (r matches Err(ProductError::Invalid(v)) && v@
            == create_violations(*body)),
{
    match body.validate() {
        Err(v) => Err(ProductError::Invalid(v)),
        Ok(()) => Ok(
            Product {
                id,
                name: body.name.clone(),
                description: body.description.clone(),
                price: body.price,
                stock: body.stock,
                created_at: now,
                updated_at: now,
            },
        ),
    }
}

/// Maps the store's answer to the insert of a new product to the response: the stored
/// product, or `Internal` when the store failed.
pub fn create_outcome(inserted: Result<Product, StoreFailure>) -> (r: Result<Product, ProductError>)
    ensures
        match inserted {
            Ok(p) => r matches Ok(q) && same_product(q, p),
            Err(_) => r matches Err(ProductError::Internal),
        },
{
    match inserted {
        Ok(p) => Ok(p),
        Err(_) => Err(ProductError::Internal),
    }
}

/// Checks an update request before it reaches the store.
pub fn update_product(body: &UpdateProductSchema) -> (r: Result<(), ProductError>)
    ensures
        update_price_ok(*body) ==> r is Ok,
        !update_price_ok(*body) ==> (r matches Err(ProductError::Invalid(v)) && v@ == seq![
            FieldError::PriceNotPositive,
        ]),
{
    match body.validate_price() {
        Ok(()) => Ok(()),
        Err(e) => {
            let mut v: Vec<FieldError> = Vec::new();
            v.push(e);
            Err(ProductError::Invalid(v))
        },
    }
}

/// Maps what the store found for one product id to the response: the product, or
/// `NotFound`, or `Internal` when the store failed.
pub fn get_product(found: Result<Option<Product>, StoreFailure>) -> (r: Result<Product, ProductError>)
    ensures
        match found {
            Ok(Some(p)) => r matches Ok(q) && same_product(q, p),
            Ok(None) => r matches Err(ProductError::NotFound),
            Err(_) => r matches Err(ProductError::Internal),
        },
{
    match found {
        Ok(Some(p)) => Ok(p),
        Ok(None) => Err(ProductError::NotFound),
        Err(_) => Err(ProductError::Internal),
    }
}

/// Maps what the store listed to the response: the products, or `Internal`.
pub fn get_products(listed: Result<Vec<Product>, StoreFailure>) -> (r: Result<Vec<Product>, ProductError>)
    ensures
        match listed {
            Ok(ps) => r matches Ok(qs) && qs@ == ps@,
            Err(_) => r matches Err(ProductError::Internal),
        },
{
    match listed {
        Ok(ps) => Ok(ps),
        Err(_) => Err(ProductError::Internal),
    }
}

/// Maps the number of rows a delete removed to the response: none removed is `NotFound`.
pub fn delete_product(removed: Result<u64, StoreFailure>) -> (r: Result<(), ProductError>)
    ensures
        match removed {
            Ok(n) => if n == 0 {
                r matches Err(ProductError::NotFound)
            } else {
                r is Ok
            },
            Err(_) => r matches Err(ProductError::Internal),
        },
{
    match removed {
        Ok(n) => if n == 0 {
            Err(ProductError::NotFound)
        } else {
            Ok(())
        },
        Err(_) => Err(ProductError::Internal),
    }
}

} // verus!
