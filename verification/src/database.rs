use vstd::prelude::*;
use vstd::string::*;
use crate::codec::{as_relay_id, base64_payload_of, encoded_id, extract_node_definition_from_relay_node_id};
use crate::coffee_order_type::GQLCoffeeOrder;
use crate::coffee_type::{coffee_type_name, parse_coffee_type, CoffeeType};
use crate::decimal::{all_dec_digits, dec_digits, dec_value, u64_to_dec_string, parse_u64_dec};
use crate::errors::DomainError;
use crate::strutil::{head_before, lemma_no_sep, lemma_split_of_join, split_at_first, tail_after};

verus! {

// ---------------------------------------------------------------------------
// Attribute values and records
// ---------------------------------------------------------------------------
/// One attribute value as the store records it: a string value or a numeric
/// value carried as decimal text. Reads tolerate either slot being empty.
pub struct AttrValue {
    pub s: Option<String>,
    pub n: Option<String>,
}

/// The string an attribute value holds, if any.
pub open spec fn attr_string(a: AttrValue) -> Option<Seq<char>> {
    match a.s {
        Some(text) => Some(text@),
        None => None,
    }
}

/// The numeric text an attribute value holds, if any.
pub open spec fn attr_number(a: AttrValue) -> Option<Seq<char>> {
    match a.n {
        Some(text) => Some(text@),
        None => None,
    }
}

/// An attribute value holding the string `s`.
pub fn string_attribute_value(s: String) -> (r: AttrValue)
    ensures
        attr_string(r) == Some(s@),
        r.n is None,
{
    AttrValue { s: Some(s), n: None }
}

/// An attribute value holding the numeric text `s`.
pub fn number_attribute_value(s: String) -> (r: AttrValue)
    ensures
        attr_number(r) == Some(s@),
        r.s is None,
{
    AttrValue { s: None, n: Some(s) }
}

/// The attribute triple persisted for one coffee order — the only on-disk
/// contract the repository must preserve across reads and writes.
pub struct CoffeeOrderRecord {
    pub pk: AttrValue,
    pub sk: AttrValue,
    pub coffee_type: AttrValue,
}

/// One item as a read returns it: any of the three attributes may be absent.
pub struct ScannedItem {
    pub pk: Option<AttrValue>,
    pub sk: Option<AttrValue>,
    pub coffee_type: Option<AttrValue>,
}

pub open spec fn item_pk_string(item: ScannedItem) -> Option<Seq<char>> {
    match item.pk {
        Some(a) => attr_string(a),
        None => None,
    }
}

pub open spec fn item_coffee_string(item: ScannedItem) -> Option<Seq<char>> {
    match item.coffee_type {
        Some(a) => attr_string(a),
        None => None,
    }
}

pub open spec fn item_sk_string(item: ScannedItem) -> Option<Seq<char>> {
    match item.sk {
        Some(a) => attr_number(a),
        None => None,
    }
}

/// The text the coffee-type attribute contributes to parsing: absent or
/// non-string attributes read as the empty string, which no coffee type
/// parses from.
pub open spec fn coffee_text(item: ScannedItem) -> Seq<char> {
    match item_coffee_string(item) {
        Some(text) => text,
        None => Seq::empty(),
    }
}

// ---------------------------------------------------------------------------
// Store-call parameters
// ---------------------------------------------------------------------------
/// The fixed table name of the coffee-shop domain.
pub fn coffee_table_name() -> (r: String)
    ensures
        r@ == "CoffeeShop"@,
{
    String::from_str("CoffeeShop")
}

/// Parameters of the bounded full-table scan behind the listing operation.
pub struct ScanParameters {
    pub table_name: String,
    pub limit: u64,
}

/// The listing scans the coffee table and asks for at most 50 items.
pub fn scan_parameters() -> (r: ScanParameters)
    ensures
        r.table_name@ == "CoffeeShop"@,
        r.limit == 50,
{
    ScanParameters { table_name: coffee_table_name(), limit: 50 }
}

/// Parameters of the point lookup behind `FindById`.
pub struct QueryParameters {
    pub table_name: String,
    pub partition_key: String,
    pub consistent_read: bool,
    pub limit: u64,
}

/// The id lookup is a strongly-consistent point query for at most one item,
/// keyed by the given partition key.
pub fn point_query_parameters(partition_key: String) -> (r: QueryParameters)
    ensures
        r.table_name@ == "CoffeeShop"@,
        r.partition_key@ == partition_key@,
        r.consistent_read,
        r.limit == 1,
{
    QueryParameters {
        table_name: coffee_table_name(),
        partition_key,
        consistent_read: true,
        limit: 1,
    }
}

// ---------------------------------------------------------------------------
// Create path
// ---------------------------------------------------------------------------
/// What a create asks for: the customer's name and the coffee type.
pub struct SaveCoffeeOrderInput {
    pub coffee_type: CoffeeType,
    pub customer_name: String,
}

/// The composite partition key of an order: customer name and order id
/// joined with `#`. Its uniqueness per item rests on the freshly drawn
/// random order id.
pub open spec fn spec_order_pk(customer: Seq<char>, order_id: Seq<char>) -> Seq<char> {
    customer + seq!['#'] + order_id
}

/// The record a create persists and the entity it returns, tied together:
/// pk is the composite key, sk the creation time as decimal text, the
/// coffee-type attribute the canonical name; the entity's id is the global
/// id of type "CoffeeOrder" over the full partition key, and the entity
/// carries the inputs back unchanged.
pub open spec fn created_parts(
    record: CoffeeOrderRecord,
    order: GQLCoffeeOrder,
    customer: Seq<char>,
    coffee: CoffeeType,
    order_id: Seq<char>,
    millis: u64,
) -> bool {
    let pk = spec_order_pk(customer, order_id);
    attr_string(record.pk) == Some(pk) && record.pk.n is None && attr_number(record.sk) == Some(
        dec_digits(millis as nat),
    ) && record.sk.s is None && attr_string(record.coffee_type) == Some(
        coffee_type_name(coffee),
    ) && record.coffee_type.n is None && order.id@ == encoded_id("CoffeeOrder"@, pk)
        && order.customer_name@ == customer && order.coffee_type == coffee && order.timestamp
        == millis
}

/// Builds the record to persist and the entity to return for a create, from
/// the inputs together with a fresh order id and the creation time.
pub fn make_coffee_order(
    customer_name: &str,
    coffee_type: CoffeeType,
    order_id: &str,
    now_millis: u64,
) -> (r: (CoffeeOrderRecord, GQLCoffeeOrder))
    requires
        customer_name@.len() + order_id@.len() < usize::MAX as int / 32,
    ensures
        created_parts(r.0, r.1, customer_name@, coffee_type, order_id@, now_millis),
{
    let pk_string = String::from_str(customer_name).concat("#").concat(order_id);
    proof {
        reveal_strlit("#");
        assert("#"@.len() == 1);
        assert("#"@ =~= seq!['#']);
        assert(pk_string@ == spec_order_pk(customer_name@, order_id@));
        reveal_strlit("CoffeeOrder");
        assert("CoffeeOrder"@.len() == 11);
    }
    let id = as_relay_id("CoffeeOrder", pk_string.clone());
    let record = CoffeeOrderRecord {
        pk: string_attribute_value(pk_string.clone()),
        sk: number_attribute_value(u64_to_dec_string(now_millis)),
        coffee_type: string_attribute_value(coffee_type.canonical_name()),
    };
    let order = GQLCoffeeOrder {
        id,
        customer_name: String::from_str(customer_name),
        coffee_type,
        timestamp: now_millis,
    };
    (record, order)
}

/// A fresh order id as the id generator renders it: 36 characters of
/// lowercase hex and hyphens — in particular free of `#` and `:`.
pub open spec fn is_fresh_order_id(oid: Seq<char>) -> bool {
    oid.len() == 36 && forall|i: int|
        0 <= i < oid.len() ==> is_uuid_char(#[trigger] oid[i])
}

pub open spec fn is_uuid_char(c: char) -> bool {
    c == '-' || ('0' <= c && c <= '9') || ('a' <= c && c <= 'f')
}

/// Relies on `uuid::Uuid::new_v4` and its `Display` rendering: a random
/// version-4 UUID printed as 36 characters of hyphenated lowercase hex. The
/// value itself is random; only the shape is promised.
#[verifier::external_body]
fn fresh_order_id() -> (r: String)
    ensures
        is_fresh_order_id(r@),
{
    uuid::Uuid::new_v4().to_string()
}

/// Relies on `chrono::Utc::now` and `DateTime::timestamp_millis` for the
/// current time in epoch milliseconds. Nothing can be promised of a clock
/// reading.
#[verifier::external_body]
fn current_epoch_millis() -> (r: i64) {
    chrono::Utc::now().timestamp_millis()
}

/// Epoch milliseconds clamped below at zero, so the numeric sort key never
/// goes negative even on a clock set before the epoch.
pub fn clamp_epoch_millis(ms: i64) -> (r: u64)
    ensures
        ms >= 0 ==> r == ms as u64,
        ms < 0 ==> r == 0,
{
    if ms < 0 {
        0
    } else {
        ms as u64
    }
}

/// Draws a fresh random order id and reads the clock, then builds the record
/// to persist and the entity to return. Whatever id and time came back, the
/// two parts stand in the create relation for them.
pub fn prepare_coffee_order(input: &SaveCoffeeOrderInput) -> (r: (CoffeeOrderRecord, GQLCoffeeOrder))
    requires
        input.customer_name@.len() < usize::MAX as int / 64,
    ensures
        exists|oid: Seq<char>, ms: u64|
            is_fresh_order_id(oid) && #[trigger] created_parts(
                r.0,
                r.1,
                input.customer_name@,
                input.coffee_type,
                oid,
                ms,
            ),
{
    let order_id = fresh_order_id();
    let now = clamp_epoch_millis(current_epoch_millis());
    let parts = make_coffee_order(
        input.customer_name.as_str(),
        input.coffee_type,
        order_id.as_str(),
        now,
    );
    proof {
        assert(is_fresh_order_id(order_id@) && created_parts(
            parts.0,
            parts.1,
            input.customer_name@,
            input.coffee_type,
            order_id@,
            now,
        ));
    }
    parts
}

// ---------------------------------------------------------------------------
// Read path
// ---------------------------------------------------------------------------
/// Splits the partition key on the first `#` and keeps the prefix: the
/// single source of truth for an order's customer name. A key without `#`
/// is its own prefix.
pub fn get_customer_name_from_pk(pk: String) -> (r: String)
    ensures
        r@ == head_before(pk@, '#'),
{
    match split_at_first(pk.as_str(), '#') {
        Some(parts) => parts.0,
        None => {
            proof {
                lemma_no_sep(pk@, '#');
            }
            pk
        },
    }
}

/// The creation time a stored sort key denotes: the value of its decimal
/// text; an absent or non-numeric sort key reads as time zero.
pub open spec fn projected_timestamp(sk: Option<Seq<char>>) -> u64 {
    match sk {
        Some(text) => if text.len() > 0 && all_dec_digits(text) && dec_value(text) <= u64::MAX {
            dec_value(text) as u64
        } else {
            0
        },
        None => 0,
    }
}

/// How a stored record projects back into an order: the id is rebuilt as the
/// global id of type "CoffeeOrder" over the full partition key, the customer
/// name re-derived from the key's `#`-prefix, the coffee type and creation
/// time read from their attributes.
pub open spec fn order_projects(
    pk: Seq<char>,
    coffee: CoffeeType,
    sk: Option<Seq<char>>,
    order: GQLCoffeeOrder,
) -> bool {
    order.id@ == encoded_id("CoffeeOrder"@, pk) && order.customer_name@ == head_before(pk, '#')
        && order.coffee_type == coffee && order.timestamp == projected_timestamp(sk)
}

/// An item that carries both attributes the projection must not invent: a
/// string pk and a string coffee type.
pub open spec fn item_complete(item: ScannedItem) -> bool {
    item_pk_string(item) is Some && item_coffee_string(item) is Some
}

/// A complete item whose coffee-type text names no coffee type: it violates
/// the write-time invariant.
pub open spec fn item_corrupt(item: ScannedItem) -> bool {
    item_complete(item) && parse_coffee_type(coffee_text(item)) is None
}

/// The projection relation of one item, as the point lookup applies it:
/// an item without a string pk reads as "not found"; one whose coffee-type
/// text does not parse is corrupt; otherwise the item projects to an order.
pub open spec fn projects_to(
    item: ScannedItem,
    r: Result<Option<GQLCoffeeOrder>, DomainError>,
) -> bool {
    match item_pk_string(item) {
        None => r matches Ok(o) && o is None,
        Some(pk) => match parse_coffee_type(coffee_text(item)) {
            None => r matches Err(e) && e matches DomainError::DataCorruption { value }
                && value@ == coffee_text(item),
            Some(coffee) => r matches Ok(o) && o matches Some(order) && order_projects(
                pk,
                coffee,
                item_sk_string(item),
                order,
            ),
        },
    }
}

/// The timestamp the sort-key attribute of `sk` denotes.
fn sort_key_millis(sk: &Option<AttrValue>) -> (r: u64)
    ensures
        r == projected_timestamp(
            match *sk {
                Some(a) => attr_number(a),
                None => None,
            },
        ),
{
    match sk {
        Some(attr) => match &attr.n {
            Some(text) => match parse_u64_dec(text.as_str()) {
                Some(n) => n,
                None => 0,
            },
            None => 0,
        },
        None => 0,
    }
}

/// Projects one stored item back into an order, exactly as `projects_to`
/// relates them.
pub fn project_item(item: &ScannedItem) -> (r: Result<Option<GQLCoffeeOrder>, DomainError>)
    requires
        item_pk_string(*item) matches Some(pk) ==> pk.len() < usize::MAX as int / 32,
    ensures
        projects_to(*item, r),
{
    let pk = match &item.pk {
        None => {
            return Ok(None);
        },
        Some(attr) => match &attr.s {
            None => {
                return Ok(None);
            },
            Some(text) => text.clone(),
        },
    };
    let coffee_text_owned = match &item.coffee_type {
        None => String::new(),
        Some(attr) => match &attr.s {
            None => String::new(),
            Some(text) => text.clone(),
        },
    };
    let coffee = match CoffeeType::parse(coffee_text_owned.as_str()) {
        Err(_) => {
            return Err(DomainError::DataCorruption { value: coffee_text_owned });
        },
        Ok(t) => t,
    };
    let timestamp = sort_key_millis(&item.sk);
    let customer_name = get_customer_name_from_pk(pk.clone());
    proof {
        reveal_strlit("CoffeeOrder");
        assert("CoffeeOrder"@.len() == 11);
    }
    let id = as_relay_id("CoffeeOrder", pk);
    Ok(Some(GQLCoffeeOrder { id, customer_name, coffee_type: coffee, timestamp }))
}

/// The point-lookup key an opaque id denotes: its decoded natural key. A
/// malformed id — one the decoder rejects, or whose payload has no `:` —
/// has no target, and the lookup then reports "not found" rather than an
/// error.
pub fn find_order_target(id: &str) -> (r: Option<String>)
    ensures
        forall|e: Seq<char>, k: Seq<char>|
            !e.contains(':') && id@ == #[trigger] encoded_id(e, k) ==> (r matches Some(pk)
                && pk@ == k),
        base64_payload_of(id@) is None ==> r is None,
        base64_payload_of(id@) matches Some(p) ==> ((r is Some <==> p.contains(':')) && (
        p.contains(':') ==> (r matches Some(pk) && pk@ == tail_after(p, ':')))),
{
    match extract_node_definition_from_relay_node_id(id) {
        Ok(def) => Some(def.node_id),
        Err(_) => None,
    }
}

/// Interprets the item list of the point query: an empty list means "not
/// found"; otherwise the first item is projected back into an order.
pub fn interpret_query_items(items: &Vec<ScannedItem>) -> (r: Result<
    Option<GQLCoffeeOrder>,
    DomainError,
>)
    requires
        items@.len() > 0 ==> (item_pk_string(items@[0]) matches Some(pk) ==> pk.len()
            < usize::MAX as int / 32),
    ensures
        items@.len() == 0 ==> (r matches Ok(o) && o is None),
        items@.len() > 0 ==> projects_to(items@[0], r),
{
    if items.len() == 0 {
        return Ok(None);
    }
    project_item(&items[0])
}

/// The complete items of a scan, in scan order: the ones the listing keeps.
pub open spec fn complete_items(items: Seq<ScannedItem>) -> Seq<ScannedItem>
    decreases items.len(),
{
    if items.len() == 0 {
        items
    } else if item_complete(items.last()) {
        complete_items(items.drop_last()).push(items.last())
    } else {
        complete_items(items.drop_last())
    }
}

/// How one kept item projects to one listed order.
pub open spec fn projects_complete(item: ScannedItem, order: GQLCoffeeOrder) -> bool {
    item_complete(item) && (parse_coffee_type(coffee_text(item)) matches Some(coffee)
        && order_projects(item_pk_string(item).unwrap(), coffee, item_sk_string(item), order))
}

/// Projects every scanned item through the same translation as the point
/// lookup: items missing the pk or coffee-type attribute are skipped, a
/// coffee-type text that parses as no coffee type is corruption, and the
/// kept items come out as orders in scan order.
pub fn project_scanned_items(items: &Vec<ScannedItem>) -> (r: Result<
    Vec<GQLCoffeeOrder>,
    DomainError,
>)
    requires
        forall|i: int|
            0 <= i < items@.len() ==> (item_pk_string(#[trigger] items@[i]) matches Some(pk)
                ==> pk.len() < usize::MAX as int / 32),
    ensures
        (r is Err) <==> (exists|i: int| 0 <= i < items@.len() && item_corrupt(#[trigger] items@[i])),
        r matches Err(e) ==> e matches DomainError::DataCorruption { .. },
        r matches Ok(v) ==> {
            let kept = complete_items(items@);
            v@.len() == kept.len() && forall|j: int|
                0 <= j < v@.len() ==> projects_complete(kept[j], #[trigger] v@[j])
        },
{
    let mut out: Vec<GQLCoffeeOrder> = Vec::new();
    let mut i: usize = 0;
    while i < items.len()
        invariant
            i <= items@.len(),
            forall|k: int|
                0 <= k < items@.len() ==> (item_pk_string(#[trigger] items@[k]) matches Some(pk)
                    ==> pk.len() < usize::MAX as int / 32),
            forall|k: int| 0 <= k < i ==> !item_corrupt(#[trigger] items@[k]),
            out@.len() == complete_items(items@.subrange(0, i as int)).len(),
            forall|j: int|
                0 <= j < out@.len() ==> projects_complete(
                    complete_items(items@.subrange(0, i as int))[j],
                    #[trigger] out@[j],
                ),
        decreases items@.len() - i,
    {
        let item = &items[i];
        let ghost prefix = items@.subrange(0, i as int);
        let ghost prefix_next = items@.subrange(0, i as int + 1);
        proof {
            assert(prefix_next.drop_last() =~= prefix);
            assert(prefix_next.last() == items@[i as int]);
        }
        let complete = match (&item.pk, &item.coffee_type) {
            (Some(pk_attr), Some(ct_attr)) => pk_attr.s.is_some() && ct_attr.s.is_some(),
            _ => false,
        };
        if complete {
            match project_item(item) {
                Ok(Some(order)) => {
                    out.push(order);
                },
                Ok(None) => {
                    // unreachable: a complete item has a string pk
                    proof {
                        assert(item_pk_string(items@[i as int]) is Some);
                    }
                },
                Err(e) => {
                    proof {
                        assert(item_corrupt(items@[i as int]));
                    }
                    return Err(e);
                },
            }
        }
        i += 1;
    }
    proof {
        assert(items@.subrange(0, items@.len() as int) =~= items@);
    }
    Ok(out)
}

// ---------------------------------------------------------------------------
// The create/read round trip
// ---------------------------------------------------------------------------
/// An item read back from the store that carries exactly the attribute
/// strings of a written record.
pub open spec fn item_carries_record(item: ScannedItem, record: CoffeeOrderRecord) -> bool {
    item_pk_string(item) == attr_string(record.pk) && item_coffee_string(item) == attr_string(
        record.coffee_type,
    ) && item_sk_string(item) == attr_number(record.sk)
}

/// A created record, read back intact, always projects to a found order:
/// never to "not found", and never to a corruption error — the write-time
/// shape invariant is exactly what the read path demands.
pub proof fn lemma_created_item_projects_ok(
    record: CoffeeOrderRecord,
    order: GQLCoffeeOrder,
    item: ScannedItem,
    r: Result<Option<GQLCoffeeOrder>, DomainError>,
    customer: Seq<char>,
    coffee: CoffeeType,
    order_id: Seq<char>,
    millis: u64,
)
    requires
        created_parts(record, order, customer, coffee, order_id, millis),
        item_carries_record(item, record),
        projects_to(item, r),
    ensures
        r matches Ok(found) && found is Some,
{
    crate::coffee_type::lemma_parse_canonical_name(coffee);
    assert(item_pk_string(item) == Some(spec_order_pk(customer, order_id)));
    assert(coffee_text(item) == coffee_type_name(coffee));
}

/// The round trip of a create: an order read back through the point lookup
/// from the very record its creation persisted is the created entity — same
/// global id, same customer name (provided the name itself holds no `#`),
/// same coffee type, same creation time.
pub proof fn lemma_find_after_create(
    record: CoffeeOrderRecord,
    order: GQLCoffeeOrder,
    item: ScannedItem,
    found: GQLCoffeeOrder,
    customer: Seq<char>,
    coffee: CoffeeType,
    order_id: Seq<char>,
    millis: u64,
)
    requires
        !customer.contains('#'),
        created_parts(record, order, customer, coffee, order_id, millis),
        item_carries_record(item, record),
        projects_to(item, Ok(Some(found))),
    ensures
        found.id@ == order.id@,
        found.customer_name@ == order.customer_name@,
        found.coffee_type == order.coffee_type,
        found.timestamp == order.timestamp,
{
    let pk = spec_order_pk(customer, order_id);
    lemma_split_of_join(customer, order_id, '#');
    crate::coffee_type::lemma_parse_canonical_name(coffee);
    crate::decimal::lemma_dec_round_trip(millis as nat);
    assert(item_pk_string(item) == Some(pk));
    assert(coffee_text(item) == coffee_type_name(coffee));
    assert(parse_coffee_type(coffee_text(item)) == Some(coffee));
    assert(order_projects(pk, coffee, item_sk_string(item), found));
    assert(projected_timestamp(Some(dec_digits(millis as nat))) == millis);
}

} // verus!
