//! Hashes and the labels known for them.
//!
//! A hash stands for a text; the text can be had back only from a table of
//! known labels. Where the table has none, the hash is shown in hexadecimal
//! notation.
use crate::hex::{hex_label, to_hex};
use smash_arc::{Hash40, HashLabels};
use vstd::prelude::*;

verus! {

/// The outside table of labels, `smash_arc::HashLabels`. Nothing inside it is
/// visible here; `label_map` names what it holds.
#[verifier::external_type_specification]
#[verifier::external_body]
pub struct ExHashLabels(HashLabels);

/// What a table of labels holds: for each hash that it knows, the label.
pub uninterp spec fn label_map(labels: HashLabels) -> Map<u64, Seq<char>>;

/// The hash of a text, as `smash_arc::hash40` computes it (the length of the
/// text above a checksum of its bytes).
pub uninterp spec fn hash40_spec(text: Seq<char>) -> u64;

/// Calls `Hash40::from` on a text (which is `smash_arc::hash40`) and hands
/// back the number. The contract only names the result: same text, same hash.
#[verifier::external_body]
pub(crate) fn hash40(text: &str) -> (hash: u64)
    ensures
        hash == hash40_spec(text@),
{
    Hash40::from(text).as_u64()
}

/// Calls `Hash40::label` with a table of labels: a lookup of the hash in the
/// table's map. The contract says that the label comes back exactly when the
/// table holds the hash, and that it is the label held.
#[verifier::external_body]
pub(crate) fn label(labels: &HashLabels, hash: u64) -> (found: Option<String>)
    ensures
        found is Some <==> label_map(*labels).contains_key(hash),
        found matches Some(text) ==> text@ == label_map(*labels)[hash],
{
    match Hash40(hash).label(labels) {
        Some(text) => Some(text.to_owned()),
        None => None,
    }
}

/// The name under which a hash is shown: its label where one is known, else
/// its hexadecimal notation.
pub open spec fn display_name(labels: Map<u64, Seq<char>>, hash: u64) -> Seq<char> {
    if labels.contains_key(hash) {
        labels[hash]
    } else {
        hex_label(hash)
    }
}

/// The name for an entry given the outcome of the lookup of its label.
pub fn name_or_hex(found: Option<String>, hash: u64) -> (name: String)
    ensures
        name@ == match found {
            Some(text) => text@,
            None => hex_label(hash),
        },
{
    match found {
        Some(text) => text,
        None => to_hex(hash),
    }
}

/// The name under which a hash is shown, and whether the label was missing.
pub fn resolve(labels: &HashLabels, hash: u64) -> (named: (String, bool))
    ensures
        named.0@ == display_name(label_map(*labels), hash),
        named.1 == !label_map(*labels).contains_key(hash),
{
    let found = label(labels, hash);
    let missing = found.is_none();
    (name_or_hex(found, hash), missing)
}

} // verus!
