use vstd::prelude::*;
use crate::decode::{
    enum_decode_post, spec_decode_enum, spec_decode_str, spec_init, spec_run_enum, spec_run_str,
    spec_step_enum, spec_step_str, str_decode_post, Acc, DecodeError,
};
use crate::keys::spec_classify;
use crate::response::{ResponseCow, ResponseKey};

verus! {

/// One step of the string-match strategy agrees with classifying the
/// name first and dispatching on the classification: the two
/// key-recognition styles make the same transition on every
/// accumulator and every field name.
pub proof fn lemma_step_strategies_agree(acc: Acc, s: Seq<char>)
    ensures
        spec_step_str(acc, s) == spec_step_enum(acc, spec_classify(s)),
{
}

/// Whole runs of the two strategies agree on every sequence of
/// observed field names.
pub proof fn lemma_run_strategies_agree(keys: Seq<Seq<char>>)
    ensures
        spec_run_str(keys) == spec_run_enum(keys),
    decreases keys.len(),
{
    if keys.len() > 0 {
        lemma_run_strategies_agree(keys.drop_last());
        match spec_run_enum(keys.drop_last()) {
            Ok(acc) => lemma_step_strategies_agree(acc, keys.last()),
            Err(_) => {},
        }
    }
}

/// The two strategies decode every sequence of observed field names to
/// the same outcome: the same payload on success, the same violation
/// on failure.
pub proof fn lemma_strategies_agree(keys: Seq<Seq<char>>)
    ensures
        spec_decode_str(keys) == spec_decode_enum(keys),
{
    lemma_run_strategies_agree(keys);
}

/// The two decoders are observably indistinguishable: results that
/// satisfy the contracts of `decode_keys_enum` and `decode_keys_str`
/// for the same field names succeed together, with equal payloads, or
/// fail together, with equal errors.
pub proof fn lemma_decoders_agree(
    keys: Seq<Seq<char>>,
    rk: Result<ResponseKey, DecodeError>,
    rc: Result<ResponseCow, DecodeError>,
)
    requires
        enum_decode_post(keys, rk),
        str_decode_post(keys, rc),
    ensures
        rk is Ok <==> rc is Ok,
        (match (rk, rc) {
            (Ok(a), Ok(b)) => a.payload == b.payload,
            (Err(e1), Err(e2)) => e1 == e2,
            _ => true,
        }),
{
    lemma_strategies_agree(keys);
}

/// Decoding is deterministic under the enumeration-dispatch strategy:
/// two results that satisfy the contract of `decode_keys_enum` for the
/// same field names are equal, so re-decoding the same input always
/// yields the same outcome.
pub proof fn lemma_redecode_enum(
    keys: Seq<Seq<char>>,
    r1: Result<ResponseKey, DecodeError>,
    r2: Result<ResponseKey, DecodeError>,
)
    requires
        enum_decode_post(keys, r1),
        enum_decode_post(keys, r2),
    ensures
        r1 == r2,
{
}

/// Decoding is deterministic under the string-match strategy as well.
pub proof fn lemma_redecode_str(
    keys: Seq<Seq<char>>,
    r1: Result<ResponseCow, DecodeError>,
    r2: Result<ResponseCow, DecodeError>,
)
    requires
        str_decode_post(keys, r1),
        str_decode_post(keys, r2),
    ensures
        r1 == r2,
{
}

/// How often a field name occurs in a sequence of observed names.
pub open spec fn spec_count(keys: Seq<Seq<char>>, name: Seq<char>) -> nat {
    keys.to_multiset().count(name)
}

/// How many payload fields — `result` or `error` in any combination —
/// a sequence of observed names holds.
pub open spec fn spec_payload_count(keys: Seq<Seq<char>>) -> nat {
    spec_count(keys, "result"@) + spec_count(keys, "error"@)
}

/// The accumulator that a run over the given names reaches, written in
/// terms of occurrence counts alone; meaningful when the run does not
/// fail, that is when at most one payload field occurs.
pub open spec fn spec_acc_of(keys: Seq<Seq<char>>) -> Acc {
    Acc {
        jsonrpc: if spec_count(keys, "jsonrpc"@) > 0 {
            Some(())
        } else {
            None
        },
        id: if spec_count(keys, "id"@) > 0 {
            Some(())
        } else {
            None
        },
        payload: if spec_count(keys, "result"@) > 0 {
            Some(Ok(()))
        } else if spec_count(keys, "error"@) > 0 {
            Some(Err(()))
        } else {
            None
        },
    }
}

/// The four recognized field names are pairwise distinct.
proof fn lemma_literals_distinct()
    ensures
        "jsonrpc"@ != "id"@,
        "jsonrpc"@ != "result"@,
        "jsonrpc"@ != "error"@,
        "id"@ != "result"@,
        "id"@ != "error"@,
        "result"@ != "error"@,
{
    reveal_strlit("jsonrpc");
    reveal_strlit("id");
    reveal_strlit("result");
    reveal_strlit("error");
    assert("jsonrpc"@.len() == 7);
    assert("id"@.len() == 2);
    assert("result"@.len() == 6);
    assert("error"@.len() == 5);
}

/// A run over a sequence of observed names — under either strategy —
/// is a function of the occurrence counts of the four recognized names
/// alone: it fails with the duplicate-field violation exactly when two
/// or more payload fields occur, and otherwise reaches the accumulator
/// that the counts describe.  In particular the order of the fields
/// never matters.
pub proof fn lemma_run_characterized(keys: Seq<Seq<char>>)
    ensures
        spec_payload_count(keys) >= 2 ==> spec_run_enum(keys) == Err::<Acc, DecodeError>(
            DecodeError::DuplicateField,
        ),
        spec_payload_count(keys) <= 1 ==> spec_run_enum(keys) == Ok::<Acc, DecodeError>(
            spec_acc_of(keys),
        ),
        spec_run_str(keys) == spec_run_enum(keys),
    decreases keys.len(),
{
    broadcast use vstd::seq_lib::group_to_multiset_ensures;
    broadcast use vstd::multiset::group_multiset_axioms;

    lemma_run_strategies_agree(keys);
    lemma_literals_distinct();
    if keys.len() == 0 {
        assert(keys.to_multiset().len() == 0);
        assert(spec_count(keys, "jsonrpc"@) == 0);
        assert(spec_count(keys, "id"@) == 0);
        assert(spec_count(keys, "result"@) == 0);
        assert(spec_count(keys, "error"@) == 0);
        assert(spec_acc_of(keys) == spec_init());
    } else {
        let rest = keys.drop_last();
        let last = keys.last();
        lemma_run_characterized(rest);
        assert(keys =~= rest.push(last));
        assert(rest.push(last).to_multiset() =~= rest.to_multiset().insert(last));
        assert(forall|name: Seq<char>|
            #[trigger] spec_count(keys, name) == spec_count(rest, name) + (if last == name {
                1nat
            } else {
                0nat
            }));
    }
}

/// Order independence: two sequences of observed field names that are
/// permutations of one another — they hold the same names, each
/// equally often — decode to the same outcome under both strategies.
pub proof fn lemma_order_independence(keys1: Seq<Seq<char>>, keys2: Seq<Seq<char>>)
    requires
        keys1.to_multiset() == keys2.to_multiset(),
    ensures
        spec_decode_enum(keys1) == spec_decode_enum(keys2),
        spec_decode_str(keys1) == spec_decode_str(keys2),
{
    lemma_run_characterized(keys1);
    lemma_run_characterized(keys2);
    lemma_strategies_agree(keys1);
    lemma_strategies_agree(keys2);
}

} // verus!
