//! Lenient wire-format codec. Remote implementations disagree on how they
//! encode "zero or more values", so three strategies normalize the
//! inconsistent cardinality encodings: one-or-many, exactly-one, and
//! skip-on-error.

use vstd::prelude::*;

verus! {

/// A wire value that arrived either bare or wrapped in an array.
#[derive(Debug)]
pub enum OneOrMany<T> {
    One(T),
    Many(Vec<T>),
}

/// Failures of the codec.
#[derive(Clone, Copy, Debug, PartialEq, Eq, Structural)]
pub enum CodecError {
    /// The payload is not valid JSON.
    InvalidPayload,
    /// The vocabulary mandates exactly one value, but the array holds none
    /// or several.
    NotExactlyOne,
}

/// The sequence a one-or-many wire value stands for: a bare value counts as
/// the one-element sequence.
pub open spec fn one_or_many_seq<T>(v: OneOrMany<T>) -> Seq<T> {
    match v {
        OneOrMany::One(x) => seq![x],
        OneOrMany::Many(l) => l@,
    }
}

/// The single value a one-or-many wire value stands for, where the
/// vocabulary mandates exactly one.
pub open spec fn exactly_one<T>(v: OneOrMany<T>) -> Result<T, CodecError> {
    match v {
        OneOrMany::One(x) => Ok(x),
        OneOrMany::Many(l) => if l@.len() == 1 {
            Ok(l@[0])
        } else {
            Err(CodecError::NotExactlyOne)
        },
    }
}

/// One-or-many: accepts either a bare value or an array of values, always
/// normalizing to a sequence.
pub fn deserialize_one_or_many<T>(v: OneOrMany<T>) -> (r: Vec<T>)
    ensures
        r@ == one_or_many_seq(v),
{
    match v {
        OneOrMany::One(x) => {
            let mut r = Vec::new();
            r.push(x);
            r
        },
        OneOrMany::Many(l) => l,
    }
}

/// Exactly-one: accepts either a bare value or a single-element array;
/// any other array is refused.
pub fn deserialize_one<T>(v: OneOrMany<T>) -> (r: Result<T, CodecError>)
    ensures
        r == exactly_one(v),
{
    match v {
        OneOrMany::One(x) => Ok(x),
        OneOrMany::Many(mut l) => {
            if l.len() == 1 {
                Ok(l.remove(0))
            } else {
                Err(CodecError::NotExactlyOne)
            }
        },
    }
}

/// Skip-on-error: where an auxiliary field failed to parse, its type's
/// default value substitutes rather than failing the whole payload. The
/// substitution is deliberately silent and local to the field, so a
/// malformed remote value never blocks admission of an otherwise-valid
/// activity.
pub fn deserialize_skip_error<T>(parsed: Result<T, CodecError>, default: T) -> (r: T)
    ensures
        r == (match parsed {
            Ok(v) => v,
            Err(_) => default,
        }),
{
    match parsed {
        Ok(v) => v,
        Err(_) => default,
    }
}

/// A bare value and its singleton wrapping stand for the same one-element
/// sequence, and for the same exactly-one value.
pub proof fn lemma_one_equals_singleton<T>(x: T, l: Vec<T>)
    requires
        l@ == seq![x],
    ensures
        one_or_many_seq(OneOrMany::One(x)) == one_or_many_seq(OneOrMany::Many(l)),
        exactly_one(OneOrMany::One(x)) == exactly_one(OneOrMany::Many(l)),
{
    assert(l@[0] == x);
}

/// What `serde_json` makes of a piece of text: `None` where the text is not
/// valid JSON; otherwise whether the document is an array, together with
/// the canonical text of each element — the elements of an array document,
/// or the document itself alone. The result depends on the text alone.
pub uninterp spec fn json_values(s: Seq<char>) -> Option<(bool, Seq<Seq<char>>)>;

/// Relies on `serde_json::from_str::<Value>` and `serde_json::Value`'s
/// `to_string`: the first parses JSON text, the second renders a value back
/// as canonical JSON text; both depend on their input alone.
#[verifier::external_body]
fn classify_json(s: &str) -> (r: Option<OneOrMany<String>>)
    ensures
        match r {
            None => json_values(s@) is None,
            Some(OneOrMany::One(x)) => json_values(s@) == Some((false, seq![x@])),
            Some(OneOrMany::Many(l)) => json_values(s@) == Some(
                (true, l@.map_values(|t: String| t@)),
            ),
        },
{
    match serde_json::from_str::<serde_json::Value>(s) {
        Err(_) => None,
        Ok(serde_json::Value::Array(items)) => Some(OneOrMany::Many(
            items.iter().map(|v| v.to_string()).collect(),
        )),
        Ok(v) => Some(OneOrMany::One(v.to_string())),
    }
}

/// Decodes a JSON document that holds one value or an array of values into
/// the normalized sequence of element texts.
pub fn decode_one_or_many(json: &str) -> (r: Result<Vec<String>, CodecError>)
    ensures
        match r {
            Ok(l) => json_values(json@) is Some && l@.map_values(|t: String| t@) == json_values(
                json@,
            ).unwrap().1,
            Err(e) => json_values(json@) is None && e == CodecError::InvalidPayload,
        },
{
    match classify_json(json) {
        None => Err(CodecError::InvalidPayload),
        Some(v) => {
            let ghost vv = v;
            let l = deserialize_one_or_many(v);
            proof {
                match vv {
                    OneOrMany::One(x) => {
                        assert(l@.map_values(|t: String| t@) =~= seq![x@]);
                    },
                    OneOrMany::Many(_) => (),
                }
            }
            Ok(l)
        },
    }
}

/// Decodes a JSON document that must hold exactly one value, either bare or
/// wrapped in a single-element array.
pub fn decode_one(json: &str) -> (r: Result<String, CodecError>)
    ensures
        match r {
            Ok(t) => json_values(json@) is Some && json_values(json@).unwrap().1 == seq![t@],
            Err(CodecError::InvalidPayload) => json_values(json@) is None,
            Err(CodecError::NotExactlyOne) => json_values(json@) is Some && json_values(
                json@,
            ).unwrap().1.len() != 1,
        },
{
    match classify_json(json) {
        None => Err(CodecError::InvalidPayload),
        Some(v) => {
            let ghost vv = v;
            match deserialize_one(v) {
                Ok(t) => {
                    proof {
                        match vv {
                            OneOrMany::One(_) => (),
                            OneOrMany::Many(l) => {
                                assert(l@.map_values(|u: String| u@) =~= seq![t@]);
                            },
                        }
                    }
                    Ok(t)
                },
                Err(_) => Err(CodecError::NotExactlyOne),
            }
        },
    }
}

/// Skip-on-error at the document level: the decoded single value, or the
/// given default where the text does not decode to exactly one value.
/// Sibling fields of the payload are unaffected: the substitution is local.
pub fn decode_skip_error(json: &str, default: String) -> (r: String)
    ensures
        (json_values(json@) is Some && json_values(json@).unwrap().1.len() == 1) ==> seq![r@]
            == json_values(json@).unwrap().1,
        !(json_values(json@) is Some && json_values(json@).unwrap().1.len() == 1) ==> r == default,
{
    match decode_one(json) {
        Ok(t) => t,
        Err(_) => default,
    }
}

} // verus!
