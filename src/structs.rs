use vstd::prelude::*;

verus! {

/// The id of an item in a cart.
#[derive(Clone, Copy, Debug, PartialEq, Eq, Structural)]
pub struct CartItemId(pub i32);

/// The id of a product.
#[derive(Clone, Copy, Debug, PartialEq, Eq, Structural)]
pub struct ProductId(pub i32);

/// The id of a store.
#[derive(Clone, Copy, Debug, PartialEq, Eq, Structural)]
pub struct StoreId(pub i32);

/// The id of a user.
#[derive(Clone, Copy, Debug, PartialEq, Eq, Structural)]
pub struct UserId(pub i32);

/// The id of an anonymous session.
#[derive(Clone, Copy, Debug, PartialEq, Eq, Structural)]
pub struct SessionId(pub i32);

/// The id of a currency.
#[derive(Clone, Copy, Debug, PartialEq, Eq, Structural)]
pub struct CurrencyId(pub i32);

/// How many units of a product are ordered.
#[derive(Clone, Copy, Debug, PartialEq, Eq, Structural)]
pub struct Quantity(pub i32);

/// A price in the smallest unit of its currency.
#[derive(Clone, Copy, Debug, PartialEq, Eq, Structural)]
pub struct ProductPrice(pub u64);

/// Whose cart an item lies in: a signed-in user or an anonymous session.
#[derive(Clone, Copy, Debug, PartialEq, Eq, Structural)]
pub enum CartCustomer {
    User(UserId),
    Anonymous(SessionId),
}

/// The price at which a seller offers a product.
#[derive(Clone, Copy, Debug, PartialEq, Eq, Structural)]
pub struct ProductSellerPrice {
    pub price: ProductPrice,
    pub currency_id: CurrencyId,
}

/// One item of a customer's cart.
#[derive(Clone, Debug, PartialEq)]
pub struct CartItem {
    pub id: CartItemId,
    pub customer: CartCustomer,
    pub product_id: ProductId,
    pub quantity: Quantity,
    pub selected: bool,
    pub comment: String,
    pub store_id: StoreId,
}

/// The items of a cart.
pub type Cart = Vec<CartItem>;

} // verus!
