use vstd::prelude::*;
use crate::coffee_type::CoffeeType;

verus! {

/// A coffee order as the API serves it: the opaque global id (always derived
/// from the stored partition key, never persisted itself), the customer's
/// name, the coffee type, and the creation time in epoch milliseconds.
#[derive(Debug)]
pub struct GQLCoffeeOrder {
    pub id: String,
    pub customer_name: String,
    pub coffee_type: CoffeeType,
    pub timestamp: u64,
}

/// The mathematical content of an order.
pub ghost struct OrderView {
    pub id: Seq<char>,
    pub customer_name: Seq<char>,
    pub coffee_type: CoffeeType,
    pub timestamp: u64,
}

impl View for GQLCoffeeOrder {
    type V = OrderView;

    open spec fn view(&self) -> OrderView {
        OrderView {
            id: self.id@,
            customer_name: self.customer_name@,
            coffee_type: self.coffee_type,
            timestamp: self.timestamp,
        }
    }
}

impl GQLCoffeeOrder {
    pub fn id(&self) -> (r: String)
        ensures
            r@ == self@.id,
    {
        self.id.clone()
    }

    pub fn coffee_type(&self) -> (r: CoffeeType)
        ensures
            r == self@.coffee_type,
    {
        self.coffee_type
    }

    pub fn customer_name(&self) -> (r: String)
        ensures
            r@ == self@.customer_name,
    {
        self.customer_name.clone()
    }

    pub fn timestamp(&self) -> (r: u64)
        ensures
            r == self@.timestamp,
    {
        self.timestamp
    }
}

} // verus!
