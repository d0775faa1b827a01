use vstd::prelude::*;
use crate::keys::{classify, spec_classify, str_eq, Key};
use crate::response::{ResponseCow, ResponseKey};

verus! {

/// The logical slot that a schema violation is reported against.
/// `Payload` stands for the joint `result`/`error` slot.
#[derive(Clone, Copy, Debug, PartialEq, Eq)]
pub enum FieldName {
    JsonRpc,
    Id,
    Payload,
}

/// A schema violation detected by the decoder itself (as opposed to a
/// malformed-input failure of the underlying cursor, which the caller
/// propagates unchanged and which never reaches this type).
#[derive(Clone, Copy, Debug, PartialEq, Eq)]
pub enum DecodeError {
    /// None of the three logical slots was ever populated.
    MissingFields,
    /// Exactly the named slot was never populated; when several are
    /// empty, the first in the checking order `jsonrpc`, `id`, payload.
    MissingField(FieldName),
    /// A second `result` or `error` field was observed after the
    /// payload slot was already filled.
    DuplicateField,
}

/// The decode accumulator: three optional slots mutated while the
/// object's fields are walked, consumed once at the end of the walk.
/// `payload` records which of the two payload fields was seen:
/// `Some(Ok(()))` after `result`, `Some(Err(()))` after `error`.
#[derive(Clone, Copy, Debug, PartialEq, Eq)]
pub struct Acc {
    pub jsonrpc: Option<()>,
    pub id: Option<()>,
    pub payload: Option<Result<(), ()>>,
}

/// The accumulator before any field has been observed.
pub open spec fn spec_init() -> Acc {
    Acc { jsonrpc: None, id: None, payload: None }
}

/// One step of the enumeration-dispatch strategy: how observing a field
/// with the given classification changes the accumulator.  `jsonrpc`
/// and `id` overwrite silently; a payload field on an already filled
/// payload slot is the one violation detected during the walk.
pub open spec fn spec_step_enum(acc: Acc, k: Key) -> Result<Acc, DecodeError> {
    match k {
        Key::JsonRpc => Ok(Acc { jsonrpc: Some(()), id: acc.id, payload: acc.payload }),
        Key::Id => Ok(Acc { jsonrpc: acc.jsonrpc, id: Some(()), payload: acc.payload }),
        Key::ResultField => if acc.payload is None {
            Ok(Acc { jsonrpc: acc.jsonrpc, id: acc.id, payload: Some(Ok(())) })
        } else {
            Err(DecodeError::DuplicateField)
        },
        Key::ErrorField => if acc.payload is None {
            Ok(Acc { jsonrpc: acc.jsonrpc, id: acc.id, payload: Some(Err(())) })
        } else {
            Err(DecodeError::DuplicateField)
        },
        Key::Unknown => Ok(acc),
    }
}

/// One step of the string-match strategy: the same transition, written
/// by matching the field name directly against the four literals, with
/// no intermediate classification value.
pub open spec fn spec_step_str(acc: Acc, s: Seq<char>) -> Result<Acc, DecodeError> {
    if s == "jsonrpc"@ {
        Ok(Acc { jsonrpc: Some(()), id: acc.id, payload: acc.payload })
    } else if s == "id"@ {
        Ok(Acc { jsonrpc: acc.jsonrpc, id: Some(()), payload: acc.payload })
    } else if s == "result"@ {
        if acc.payload is None {
            Ok(Acc { jsonrpc: acc.jsonrpc, id: acc.id, payload: Some(Ok(())) })
        } else {
            Err(DecodeError::DuplicateField)
        }
    } else if s == "error"@ {
        if acc.payload is None {
            Ok(Acc { jsonrpc: acc.jsonrpc, id: acc.id, payload: Some(Err(())) })
        } else {
            Err(DecodeError::DuplicateField)
        }
    } else {
        Ok(acc)
    }
}

/// Running the enumeration-dispatch strategy over a whole sequence of
/// observed field names; an error stops the walk and is final.
pub open spec fn spec_run_enum(keys: Seq<Seq<char>>) -> Result<Acc, DecodeError>
    decreases keys.len(),
{
    if keys.len() == 0 {
        Ok(spec_init())
    } else {
        match spec_run_enum(keys.drop_last()) {
            Ok(acc) => spec_step_enum(acc, spec_classify(keys.last())),
            Err(e) => Err(e),
        }
    }
}

/// Running the string-match strategy over a whole sequence of observed
/// field names.
pub open spec fn spec_run_str(keys: Seq<Seq<char>>) -> Result<Acc, DecodeError>
    decreases keys.len(),
{
    if keys.len() == 0 {
        Ok(spec_init())
    } else {
        match spec_run_str(keys.drop_last()) {
            Ok(acc) => spec_step_str(acc, keys.last()),
            Err(e) => Err(e),
        }
    }
}

/// The completeness check made after the object is exhausted: all three
/// slots filled yields the payload; all three empty is reported as the
/// joint `MissingFields`; otherwise the first empty slot in the order
/// `jsonrpc`, `id`, payload is reported.
pub open spec fn spec_finish(acc: Acc) -> Result<Result<(), ()>, DecodeError> {
    match (acc.jsonrpc, acc.id, acc.payload) {
        (Some(_), Some(_), Some(p)) => Ok(p),
        (None, None, None) => Err(DecodeError::MissingFields),
        (None, _, _) => Err(DecodeError::MissingField(FieldName::JsonRpc)),
        (_, None, _) => Err(DecodeError::MissingField(FieldName::Id)),
        (_, _, None) => Err(DecodeError::MissingField(FieldName::Payload)),
    }
}

/// The outcome of decoding a sequence of field names under the
/// enumeration-dispatch strategy: the payload of the decoded response,
/// or the first violation.
pub open spec fn spec_decode_enum(keys: Seq<Seq<char>>) -> Result<Result<(), ()>, DecodeError> {
    match spec_run_enum(keys) {
        Ok(acc) => spec_finish(acc),
        Err(e) => Err(e),
    }
}

/// The outcome of decoding a sequence of field names under the
/// string-match strategy.
pub open spec fn spec_decode_str(keys: Seq<Seq<char>>) -> Result<Result<(), ()>, DecodeError> {
    match spec_run_str(keys) {
        Ok(acc) => spec_finish(acc),
        Err(e) => Err(e),
    }
}

/// The views of the field names held in a vector of owned strings.
pub open spec fn spec_names(keys: Seq<String>) -> Seq<Seq<char>> {
    keys.map_values(|s: String| s@)
}

/// What `decode_keys_enum` promises of its result.
pub open spec fn enum_decode_post(keys: Seq<Seq<char>>, r: Result<ResponseKey, DecodeError>) -> bool {
    match r {
        Ok(resp) => spec_decode_enum(keys) == Ok::<Result<(), ()>, DecodeError>(resp.payload),
        Err(e) => spec_decode_enum(keys) == Err::<Result<(), ()>, DecodeError>(e),
    }
}

/// What `decode_keys_str` promises of its result.
pub open spec fn str_decode_post(keys: Seq<Seq<char>>, r: Result<ResponseCow, DecodeError>) -> bool {
    match r {
        Ok(resp) => spec_decode_str(keys) == Ok::<Result<(), ()>, DecodeError>(resp.payload),
        Err(e) => spec_decode_str(keys) == Err::<Result<(), ()>, DecodeError>(e),
    }
}

impl Acc {
    /// The accumulator at the start of a decode call.
    pub fn new() -> (acc: Acc)
        ensures
            acc == spec_init(),
    {
        Acc { jsonrpc: None, id: None, payload: None }
    }
}

/// Apply one classified field to the accumulator (enumeration-dispatch
/// strategy).  The caller pulls or skips the field's value only after a
/// successful step, so a duplicate payload field fails before its value
/// is consumed.
pub fn step_enum(acc: Acc, k: Key) -> (r: Result<Acc, DecodeError>)
    ensures
        r == spec_step_enum(acc, k),
{
    match k {
        Key::JsonRpc => Ok(Acc { jsonrpc: Some(()), id: acc.id, payload: acc.payload }),
        Key::Id => Ok(Acc { jsonrpc: acc.jsonrpc, id: Some(()), payload: acc.payload }),
        Key::ResultField => {
            if acc.payload.is_none() {
                Ok(Acc { jsonrpc: acc.jsonrpc, id: acc.id, payload: Some(Ok(())) })
            } else {
                Err(DecodeError::DuplicateField)
            }
        },
        Key::ErrorField => {
            if acc.payload.is_none() {
                Ok(Acc { jsonrpc: acc.jsonrpc, id: acc.id, payload: Some(Err(())) })
            } else {
                Err(DecodeError::DuplicateField)
            }
        },
        Key::Unknown => Ok(acc),
    }
}

/// Apply one field name to the accumulator (string-match strategy):
/// recognition and dispatch fused into direct literal comparisons.
pub fn step_str(acc: Acc, key: &str) -> (r: Result<Acc, DecodeError>)
    ensures
        r == spec_step_str(acc, key@),
{
    if str_eq(key, "jsonrpc") {
        Ok(Acc { jsonrpc: Some(()), id: acc.id, payload: acc.payload })
    } else if str_eq(key, "id") {
        Ok(Acc { jsonrpc: acc.jsonrpc, id: Some(()), payload: acc.payload })
    } else if str_eq(key, "result") {
        if acc.payload.is_none() {
            Ok(Acc { jsonrpc: acc.jsonrpc, id: acc.id, payload: Some(Ok(())) })
        } else {
            Err(DecodeError::DuplicateField)
        }
    } else if str_eq(key, "error") {
        if acc.payload.is_none() {
            Ok(Acc { jsonrpc: acc.jsonrpc, id: acc.id, payload: Some(Err(())) })
        } else {
            Err(DecodeError::DuplicateField)
        }
    } else {
        Ok(acc)
    }
}

/// Validate a fully accumulated object and hand back the payload, or
/// the first missing slot in the checking order.
pub fn finish(acc: Acc) -> (r: Result<Result<(), ()>, DecodeError>)
    ensures
        r == spec_finish(acc),
{
    match (acc.jsonrpc, acc.id, acc.payload) {
        (Some(_), Some(_), Some(p)) => Ok(p),
        (None, None, None) => Err(DecodeError::MissingFields),
        (None, _, _) => Err(DecodeError::MissingField(FieldName::JsonRpc)),
        (_, None, _) => Err(DecodeError::MissingField(FieldName::Id)),
        (_, _, None) => Err(DecodeError::MissingField(FieldName::Payload)),
    }
}

/// Once the walk has failed, later fields change nothing: the run over
/// any extension of the failing prefix reports the same error.
proof fn lemma_run_error_persists(keys: Seq<Seq<char>>, i: int)
    requires
        0 <= i <= keys.len(),
        spec_run_enum(keys.take(i)) is Err || spec_run_str(keys.take(i)) is Err,
    ensures
        spec_run_enum(keys.take(i)) is Err ==> spec_run_enum(keys) == spec_run_enum(keys.take(i)),
        spec_run_str(keys.take(i)) is Err ==> spec_run_str(keys) == spec_run_str(keys.take(i)),
    decreases keys.len() - i,
{
    if i == keys.len() {
        assert(keys.take(i) =~= keys);
    } else {
        assert(keys.take(i + 1).drop_last() =~= keys.take(i));
        lemma_run_error_persists(keys, i + 1);
    }
}

/// Decode a sequence of observed field names under the
/// enumeration-dispatch strategy: classify each name, dispatch on the
/// classification, then validate completeness.
pub fn decode_keys_enum(keys: &Vec<String>) -> (r: Result<ResponseKey, DecodeError>)
    ensures
        enum_decode_post(spec_names(keys@), r),
{
    let ghost kseq: Seq<Seq<char>> = spec_names(keys@);
    let mut acc = Acc::new();
    let n = keys.len();
    let mut i: usize = 0;
    while i < n
        invariant
            n == keys.len(),
            i <= n,
            kseq == spec_names(keys@),
            spec_run_enum(kseq.take(i as int)) == Ok::<Acc, DecodeError>(acc),
        decreases n - i,
    {
        proof {
            assert(kseq.take(i as int + 1).drop_last() =~= kseq.take(i as int));
            assert(kseq.take(i as int + 1).last() == kseq[i as int]);
        }
        let k = classify(keys[i].as_str());
        match step_enum(acc, k) {
            Ok(a) => {
                acc = a;
            },
            Err(e) => {
                proof {
                    lemma_run_error_persists(kseq, i as int + 1);
                }
                return Err(e);
            },
        }
        i = i + 1;
    }
    proof {
        assert(kseq.take(n as int) =~= kseq);
    }
    match finish(acc) {
        Ok(p) => Ok(ResponseKey { jsonrpc: (), id: (), payload: p }),
        Err(e) => Err(e),
    }
}

/// Decode a sequence of observed field names under the string-match
/// strategy: match each name directly, then validate completeness.
pub fn decode_keys_str(keys: &Vec<String>) -> (r: Result<ResponseCow, DecodeError>)
    ensures
        str_decode_post(spec_names(keys@), r),
{
    let ghost kseq: Seq<Seq<char>> = spec_names(keys@);
    let mut acc = Acc::new();
    let n = keys.len();
    let mut i: usize = 0;
    while i < n
        invariant
            n == keys.len(),
            i <= n,
            kseq == spec_names(keys@),
            spec_run_str(kseq.take(i as int)) == Ok::<Acc, DecodeError>(acc),
        decreases n - i,
    {
        proof {
            assert(kseq.take(i as int + 1).drop_last() =~= kseq.take(i as int));
            assert(kseq.take(i as int + 1).last() == kseq[i as int]);
        }
        match step_str(acc, keys[i].as_str()) {
            Ok(a) => {
                acc = a;
            },
            Err(e) => {
                proof {
                    lemma_run_error_persists(kseq, i as int + 1);
                }
                return Err(e);
            },
        }
        i = i + 1;
    }
    proof {
        assert(kseq.take(n as int) =~= kseq);
    }
    match finish(acc) {
        Ok(p) => Ok(ResponseCow { jsonrpc: (), id: (), payload: p }),
        Err(e) => Err(e),
    }
}

impl FieldName {
    /// The wire-level name this slot is reported under; the payload
    /// slot is reported jointly as `result/error`.
    pub fn as_text(&self) -> (r: &'static str)
        ensures
            self is JsonRpc ==> r@ == "jsonrpc"@,
            self is Id ==> r@ == "id"@,
            self is Payload ==> r@ == "result/error"@,
    {
        match self {
            FieldName::JsonRpc => "jsonrpc",
            FieldName::Id => "id",
            FieldName::Payload => "result/error",
        }
    }
}

} // verus!
