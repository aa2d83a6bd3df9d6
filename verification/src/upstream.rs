//! The backend call: framing the request, and turning what comes back into
//! one ordered list of results.

use vstd::prelude::*;
use crate::config::{DATA_KEY, INPUTS_KEY};
use crate::job::Job;
use crate::json::{as_array, json_items, json_member, json_parsed, json_text_list, member, parse, print_text_list};

verus! {

/// Why a call to the backend produced no list of results.
#[derive(Clone, Copy, Debug, PartialEq, Eq, Structural)]
pub enum UpstreamError {
    /// The call itself failed: no connection, or a status other than success.
    Transport,
    /// The answer's body is not JSON.
    Malformed,
}

/// The inputs of a batch, in batch order.
pub open spec fn inputs_of(batch: Seq<Job>) -> Seq<Seq<char>> {
    Seq::new(batch.len(), |i: int| batch[i].input@)
}

/// The request body that carries the already encoded list `list`.
pub open spec fn framed_request(list: Seq<char>) -> Seq<char> {
    "{\""@ + INPUTS_KEY@ + "\":"@ + list + "}"@
}

/// The array found under the data key of `v`, if `v` is an object with such
/// a member and the member is an array.
pub open spec fn keyed_items(v: serde_json::Value) -> Option<Seq<serde_json::Value>> {
    match json_member(v, DATA_KEY@) {
        Some(inner) => json_items(inner),
        None => None,
    }
}

/// The choice between the two accepted shapes: the keyed array where there
/// is one, else the bare array, else nothing.
pub open spec fn selected(
    keyed: Option<Seq<serde_json::Value>>,
    bare: Option<Seq<serde_json::Value>>,
) -> Seq<serde_json::Value> {
    match keyed {
        Some(items) => items,
        None => match bare {
            Some(items) => items,
            None => Seq::empty(),
        },
    }
}

/// The ordered results that the answer `v` holds: the array under the data
/// key where there is one, else `v`'s own elements where `v` is an array,
/// else nothing.
pub open spec fn normalized(v: serde_json::Value) -> Seq<serde_json::Value> {
    selected(keyed_items(v), json_items(v))
}

/// What a call to the backend amounts to, given the body that came back
/// (`None` where the call failed).
pub open spec fn outcome_of(body: Option<Seq<u8>>) -> Result<Seq<serde_json::Value>, UpstreamError> {
    match body {
        None => Err(UpstreamError::Transport),
        Some(bytes) => match json_parsed(bytes) {
            None => Err(UpstreamError::Malformed),
            Some(v) => Ok(normalized(v)),
        },
    }
}

/// Copies the inputs of a batch, in batch order.
pub fn batch_inputs(batch: &Vec<Job>) -> (inputs: Vec<String>)
    ensures
        inputs.deep_view() == inputs_of(batch@),
{
    let mut inputs: Vec<String> = Vec::new();
    let mut i: usize = 0;
    while i < batch.len()
        invariant
            i <= batch.len(),
            inputs.len() == i,
            forall|k: int| 0 <= k < i ==> inputs[k]@ == batch[k].input@,
        decreases batch.len() - i,
    {
        inputs.push(batch[i].input.clone());
        i += 1;
    }
    assert(inputs.deep_view() =~= inputs_of(batch@));
    inputs
}

/// Wraps an encoded list of inputs into the body of a call: an object whose
/// one member, under the inputs key, is that list.
pub fn frame_request(list: &str) -> (body: String)
    ensures
        body@ == framed_request(list@),
{
    let mut body = String::from_str("{\"");
    body.append(INPUTS_KEY);
    body.append("\":");
    body.append(list);
    body.append("}");
    body
}

/// Builds the body of the call that carries `inputs`: an object whose one
/// member, under the inputs key, is the list of the inputs in order. There
/// is a body exactly when the encoder yields the list.
pub fn request_body(inputs: &Vec<String>) -> (body: Option<String>)
    ensures
        match json_text_list(inputs.deep_view()) {
            Some(list) => body is Some && body->0@ == framed_request(list),
            None => body is None,
        },
{
    match print_text_list(inputs) {
        Ok(list) => Some(frame_request(list.as_str())),
        Err(_) => None,
    }
}

/// Copies a list of results.
fn copy_values(items: &Vec<serde_json::Value>) -> (copy: Vec<serde_json::Value>)
    ensures
        copy@ == items@,
{
    let mut copy: Vec<serde_json::Value> = Vec::new();
    let mut i: usize = 0;
    while i < items.len()
        invariant
            i <= items.len(),
            copy@ == items@.take(i as int),
        decreases items.len() - i,
    {
        copy.push(items[i].clone());
        assert(items@.take(i as int).push(items@[i as int]) =~= items@.take(i + 1));
        i += 1;
    }
    assert(items@.take(items.len() as int) =~= items@);
    copy
}

/// The elements of a list that was found, where one was.
pub open spec fn found_view(found: Option<&Vec<serde_json::Value>>) -> Option<
    Seq<serde_json::Value>,
> {
    match found {
        Some(items) => Some(items@),
        None => None,
    }
}

/// Chooses between the array found under the data key and the array that
/// the answer itself is, and copies the chosen one: the keyed array goes
/// first, and where neither was found the list is empty.
pub fn select_items(
    keyed: Option<&Vec<serde_json::Value>>,
    bare: Option<&Vec<serde_json::Value>>,
) -> (results: Vec<serde_json::Value>)
    ensures
        results@ == selected(found_view(keyed), found_view(bare)),
{
    match keyed {
        Some(items) => copy_values(items),
        None => match bare {
            Some(items) => copy_values(items),
            None => Vec::new(),
        },
    }
}

/// Reduces either accepted shape of answer to one ordered list of results.
/// An answer of neither shape gives the empty list.
pub fn normalize(v: &serde_json::Value) -> (results: Vec<serde_json::Value>)
    ensures
        results@ == normalized(*v),
{
    let keyed = match member(v, DATA_KEY) {
        Some(inner) => as_array(inner),
        None => None,
    };
    select_items(keyed, as_array(v))
}

/// Reads the outcome of one call to the backend from the body that came
/// back, or from its absence where the call failed.
pub fn read_response(body: Option<&[u8]>) -> (outcome: Result<Vec<serde_json::Value>, UpstreamError>)
    ensures
        match outcome {
            Ok(results) => outcome_of(body_view(body)) == Ok::<Seq<serde_json::Value>, UpstreamError>(results@),
            Err(e) => outcome_of(body_view(body)) == Err::<Seq<serde_json::Value>, UpstreamError>(e),
        },
{
    match body {
        None => Err(UpstreamError::Transport),
        Some(bytes) => match parse(bytes) {
            Ok(v) => Ok(normalize(&v)),
            Err(_) => Err(UpstreamError::Malformed),
        },
    }
}

/// The bytes of a body, where there is one.
pub open spec fn body_view(body: Option<&[u8]>) -> Option<Seq<u8>> {
    match body {
        Some(bytes) => Some(bytes@),
        None => None,
    }
}

} // verus!
