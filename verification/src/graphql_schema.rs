use vstd::prelude::*;
use vstd::string::*;
use crate::codec::{base64_payload_of, encoded_id, extract_node_definition_from_relay_node_id};
use crate::coffee_order_type::GQLCoffeeOrder;
use crate::coffee_type::CoffeeType;
use crate::errors::DomainError;
use crate::strutil::{head_before, str_eq, tail_after};

verus! {

/// The polymorphic node union: a single variant today, the explicit
/// extension point for further entity kinds.
#[derive(Debug)]
pub enum Node {
    CoffeeOrder(GQLCoffeeOrder),
}

/// The query root: the read operations the graph API exposes.
pub struct QueryRoot;

/// What an `orderCoffee` mutation asks for.
pub struct OrderCoffeeInput {
    pub coffee_type: CoffeeType,
    pub customer_name: String,
}

/// The mutation root: the write operations the graph API exposes.
pub struct MutationRoot;

/// The one user-facing failure: a create the store rejected, surfaced with a
/// structured, machine-readable detail payload beside the message.
#[derive(Debug)]
pub struct OrderCoffeeFailure {
    pub message: String,
    pub details: String,
    pub error: DomainError,
}

impl QueryRoot {
    /// The static greeting of the query root.
    pub fn me(&self) -> (r: String)
        ensures
            r@ == "Ozericco!"@,
    {
        String::from_str("Ozericco!")
    }

    /// The point lookup that resolving `node(id)` requires: the decoded
    /// natural key, exactly when the id decodes and its entity-type
    /// discriminant is "CoffeeOrder". Any other id — one the decoder
    /// rejects, one whose payload has no `:`, or one of an unrecognized
    /// entity type — resolves to no lookup, hence to empty.
    pub fn node_lookup_key(&self, id: &str) -> (r: Option<String>)
        ensures
            forall|e: Seq<char>, k: Seq<char>|
                !e.contains(':') && id@ == #[trigger] encoded_id(e, k) ==> ((r is Some <==> e
                    == "CoffeeOrder"@) && (r matches Some(pk) ==> pk@ == k)),
            base64_payload_of(id@) is None ==> r is None,
            base64_payload_of(id@) matches Some(p) ==> ((p.contains(':') ==> ((r is Some <==>
            head_before(p, ':') == "CoffeeOrder"@) && (r matches Some(pk) ==> pk@ == tail_after(
                p,
                ':',
            )))) && (!p.contains(':') ==> r is None)),
    {
        match extract_node_definition_from_relay_node_id(id) {
            Err(_) => None,
            Ok(def) => {
                if str_eq(def.node_type.as_str(), "CoffeeOrder") {
                    Some(def.node_id)
                } else {
                    None
                }
            },
        }
    }

    /// Resolves the node from the repository's lookup outcome: a found order
    /// becomes the node; not-found and lookup failure both resolve to empty,
    /// indistinguishably.
    pub fn node_from_lookup(&self, lookup: Result<Option<GQLCoffeeOrder>, DomainError>) -> (r:
        Option<Node>)
        ensures
            match lookup {
                Ok(found) => match found {
                    Some(order) => r matches Some(n) && n matches Node::CoffeeOrder(inner)
                        && inner == order,
                    None => r is None,
                },
                Err(_) => r is None,
            },
    {
        match lookup {
            Ok(Some(order)) => Some(Node::CoffeeOrder(order)),
            Ok(None) => None,
            Err(_) => None,
        }
    }

    /// Resolves `coffeeOrders` from the repository's listing outcome: a
    /// listing failure resolves to an empty list rather than propagating.
    pub fn coffee_orders_from_listing(&self, listing: Result<
        Vec<GQLCoffeeOrder>,
        DomainError,
    >) -> (r: Vec<GQLCoffeeOrder>)
        ensures
            match listing {
                Ok(orders) => r == orders,
                Err(_) => r@.len() == 0,
            },
    {
        match listing {
            Ok(orders) => orders,
            Err(_) => Vec::new(),
        }
    }
}

impl MutationRoot {
    /// Resolves `orderCoffee` from the repository's create outcome: success
    /// passes the entity through unchanged; failure is the one path that
    /// surfaces to the user, as a structured error that keeps the
    /// underlying store error beside the fixed message and detail text.
    pub fn order_coffee_outcome(&self, saved: Result<GQLCoffeeOrder, DomainError>) -> (r: Result<
        GQLCoffeeOrder,
        OrderCoffeeFailure,
    >)
        ensures
            match saved {
                Ok(order) => r matches Ok(out) && out == order,
                Err(e) => r matches Err(f) && f.message@ == "Cannot Save Coffee Order"@
                    && f.details@ == "Could not find a coffee order"@ && f.error == e,
            },
    {
        match saved {
            Ok(order) => Ok(order),
            Err(e) => Err(
                OrderCoffeeFailure {
                    message: String::from_str("Cannot Save Coffee Order"),
                    details: String::from_str("Could not find a coffee order"),
                    error: e,
                },
            ),
        }
    }
}

} // verus!
