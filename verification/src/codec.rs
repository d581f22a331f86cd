use vstd::prelude::*;
use vstd::string::*;
use crate::errors::DomainError;
use crate::strutil::{head_before, tail_after, lemma_split_of_join, split_at_first};

verus! {

/// The base64 text (standard alphabet, with padding) of a string's UTF-8
/// bytes. The encoding is a function of the characters alone, so it is only
/// named here; the codec's contracts speak of it.
pub uninterp spec fn base64_of(s: Seq<char>) -> Seq<char>;

/// The text that base64-decoding yields for an input, if the decoder accepts
/// it and the decoded bytes are text: `Some` exactly on the inputs the
/// decoder takes (it is lenient — it also takes some texts no encoder
/// emits), `None` on the ones it rejects. A function of the input alone, so
/// it is only named here; the decoder's failure policy is stated over it.
pub uninterp spec fn base64_payload_of(s: Seq<char>) -> Option<Seq<char>>;

/// The opaque global id of an entity: entity type and natural key joined
/// with `:`, then base64-encoded.
pub open spec fn encoded_id(entity_type: Seq<char>, natural_key: Seq<char>) -> Seq<char> {
    base64_of(entity_type + seq![':'] + natural_key)
}

/// Relies on `base64::encode` (standard alphabet, padded): its result depends
/// on the input bytes alone. The length bound keeps the input clear of the
/// encoder's internal buffer-size overflow.
#[verifier::external_body]
fn base64_encode(s: &str) -> (r: String)
    requires
        s@.len() < usize::MAX as int / 8,
    ensures
        r@ == base64_of(s@),
{
    base64::encode(s)
}

/// Relies on `base64::decode` (standard alphabet, padded) and
/// `String::from_utf8`. Decoding succeeds exactly where `base64_payload_of`
/// has a payload, and returns that payload; and it inverts `base64::encode`,
/// so an input that is the encoding of some string decodes back to exactly
/// that string.
#[verifier::external_body]
fn base64_decode(s: &str) -> (r: Result<String, ()>)
    ensures
        r is Ok <==> base64_payload_of(s@) is Some,
        r matches Ok(p) ==> base64_payload_of(s@) == Some(p@),
        forall|t: Seq<char>| s@ == #[trigger] base64_of(t) ==> r is Ok && r->Ok_0@ == t,
{
    match base64::decode(s) {
        Ok(bytes) => match String::from_utf8(bytes) {
            Ok(text) => Ok(text),
            Err(_) => Err(()),
        },
        Err(_) => Err(()),
    }
}

/// An opaque global id taken apart: the entity-type discriminant and the
/// natural key of the entity within that type.
#[derive(Debug)]
pub struct NodeDefinition {
    pub node_type: String,
    pub node_id: String,
}

/// Builds the opaque global id of an entity: joins the entity type and the
/// natural key with `:` and base64-encodes the join.
pub fn as_relay_id(entity_name: &str, id: String) -> (r: String)
    requires
        entity_name@.len() + id@.len() < usize::MAX as int / 16,
    ensures
        r@ == encoded_id(entity_name@, id@),
{
    let joined = String::from_str(entity_name).concat(":").concat(id.as_str());
    proof {
        reveal_strlit(":");
        assert(":"@.len() == 1);
        assert(":"@ =~= seq![':']);
    }
    base64_encode(joined.as_str())
}

/// Decodes an opaque global id: base64-decodes it, then splits the payload at
/// the *first* `:` into the entity type and the natural key, which keeps any
/// later `:` characters.
///
/// The first postcondition is the round-trip law: an id built over any
/// `:`-free entity type decodes back to exactly the pieces it was built from.
/// The rest is the failure policy: an input the decoder rejects — malformed
/// base64, or a payload that is not text — and a payload without `:` are
/// decode errors, never a panic; an accepted payload with `:` yields exactly
/// its first-`:` split.
pub fn extract_node_definition_from_relay_node_id(relay_node_id: &str) -> (r: Result<
    NodeDefinition,
    DomainError,
>)
    ensures
        forall|e: Seq<char>, k: Seq<char>|
            !e.contains(':') && relay_node_id@ == #[trigger] encoded_id(e, k) ==> r is Ok
                && r->Ok_0.node_type@ == e && r->Ok_0.node_id@ == k,
        forall|t: Seq<char>|
            !t.contains(':') && relay_node_id@ == #[trigger] base64_of(t) ==> r is Err,
        base64_payload_of(relay_node_id@) is None ==> r is Err,
        base64_payload_of(relay_node_id@) matches Some(p) ==> (r is Ok <==> p.contains(':')),
        base64_payload_of(relay_node_id@) matches Some(p) ==> (p.contains(':') ==> (r matches Ok(
            def,
        ) && def.node_type@ == head_before(p, ':') && def.node_id@ == tail_after(p, ':'))),
        r matches Ok(def) ==> !def.node_type@.contains(':'),
        r matches Err(err) ==> err == DomainError::Decode,
{
    let payload = match base64_decode(relay_node_id) {
        Ok(p) => p,
        Err(()) => {
            return Err(DomainError::Decode);
        },
    };
    match split_at_first(payload.as_str(), ':') {
        Some(parts) => {
            let (node_type, node_id) = parts;
            proof {
                assert forall|e: Seq<char>, k: Seq<char>|
                    !e.contains(':') && relay_node_id@ == #[trigger] encoded_id(e, k)
                        implies node_type@ == e && node_id@ == k by {
                    lemma_split_of_join(e, k, ':');
                }
            }
            Ok(NodeDefinition { node_type, node_id })
        },
        None => {
            proof {
                assert forall|e: Seq<char>, k: Seq<char>|
                    !(!e.contains(':') && relay_node_id@ == #[trigger] encoded_id(e, k)) by {
                    if relay_node_id@ == encoded_id(e, k) {
                        assert((e + seq![':'] + k)[e.len() as int] == ':');
                        assert((e + seq![':'] + k).contains(':'));
                    }
                }
            }
            Err(DomainError::Decode)
        },
    }
}

} // verus!
