//! The rows that the tables hold and the inputs that write them.

use vstd::prelude::*;

verus! {

/// A value that can be copied field for field.
pub trait Duplicate: Sized {
    fn duplicate(&self) -> (r: Self)
        ensures
            r == *self,
    ;
}

/// One stored row: a store-assigned id, the business fields, and the two
/// store-managed timestamps, as readings of the store's clock.
#[derive(Debug)]
pub struct Record<F> {
    pub id: i32,
    pub fields: F,
    pub created_at: i64,
    pub updated_at: i64,
}

impl<F: Duplicate> Duplicate for Record<F> {
    fn duplicate(&self) -> (r: Self) {
        Record {
            id: self.id,
            fields: self.fields.duplicate(),
            created_at: self.created_at,
            updated_at: self.updated_at,
        }
    }
}

/// The business fields of a user; in a stored row `password` holds the digest.
#[derive(Debug)]
pub struct UserInput {
    pub first_name: String,
    pub last_name: String,
    pub username: String,
    pub password: String,
    pub email: String,
}

impl Duplicate for UserInput {
    fn duplicate(&self) -> (r: Self) {
        UserInput {
            first_name: self.first_name.clone(),
            last_name: self.last_name.clone(),
            username: self.username.clone(),
            password: self.password.clone(),
            email: self.email.clone(),
        }
    }
}

/// The business fields of an order.
#[derive(Debug)]
pub struct OrderInput {
    pub name: String,
}

impl Duplicate for OrderInput {
    fn duplicate(&self) -> (r: Self) {
        OrderInput { name: self.name.clone() }
    }
}

/// The business fields of a product.
#[derive(Debug)]
pub struct ProductInput {
    pub name: String,
}

impl Duplicate for ProductInput {
    fn duplicate(&self) -> (r: Self) {
        ProductInput { name: self.name.clone() }
    }
}

/// The business fields of an image of a product.
#[derive(Debug)]
#[allow(non_snake_case)]
pub struct ImageInput {
    pub name: String,
    pub path: String,
    pub productId: i32,
}

impl Duplicate for ImageInput {
    fn duplicate(&self) -> (r: Self) {
        ImageInput { name: self.name.clone(), path: self.path.clone(), productId: self.productId }
    }
}

pub type User = Record<UserInput>;

pub type Order = Record<OrderInput>;

pub type Product = Record<ProductInput>;

pub type Image = Record<ImageInput>;

/// A login attempt; never stored.
#[derive(Debug)]
pub struct Credentials {
    pub username: String,
    pub password: String,
}

/// An authenticated principal as handed to the session layer.
#[derive(Debug)]
pub struct AuthUser {
    pub id: i64,
    pub username: String,
    pub password: String,
}

} // verus!
