use vstd::prelude::*;
use vstd::string::StringExecFns;

use crate::descriptor::{default_descriptor, is_default_descriptor, shape_wf, ModelDescriptor};
use crate::json::{json_as_array, json_as_i64, json_as_str, json_member, json_parse};

verus! {

/// The first candidate that parsed, in an ordered list of parse outcomes.
pub open spec fn first_parsed(cands: Seq<Option<ModelDescriptor>>) -> Option<ModelDescriptor>
    decreases cands.len(),
{
    if cands.len() == 0 {
        None
    } else {
        match cands[0] {
            Some(d) => Some(d),
            None => first_parsed(cands.drop_first()),
        }
    }
}

proof fn lemma_first_parsed_some_exists(cands: Seq<Option<ModelDescriptor>>)
    ensures
        first_parsed(cands) is Some ==> exists|i: int|
            0 <= i < cands.len() && (#[trigger] cands[i]) is Some,
    decreases cands.len(),
{
    if cands.len() > 0 {
        if cands[0] is Some {
        } else {
            lemma_first_parsed_some_exists(cands.drop_first());
            if first_parsed(cands.drop_first()) is Some {
                let j = choose|j: int|
                    0 <= j < cands.drop_first().len() && (#[trigger] cands.drop_first()[j]) is Some;
                assert(cands[j + 1] is Some);
            }
        }
    }
}

proof fn lemma_first_parsed_all_none(cands: Seq<Option<ModelDescriptor>>)
    requires
        forall|i: int| 0 <= i < cands.len() ==> (#[trigger] cands[i]) is None,
    ensures
        first_parsed(cands) is None,
    decreases cands.len(),
{
    if cands.len() > 0 {
        assert(cands[0] is None);
        lemma_first_parsed_all_none(cands.drop_first());
    }
}

/// Reads a JSON array as a tensor shape: at least one element, every
/// element an integer in 1 ..= i32::MAX. Anything else is no shape.
fn parse_shape(vals: &Vec<serde_json::Value>) -> (r: Option<Vec<i64>>)
    ensures
        r matches Some(s) ==> shape_wf(s@),
{
    if vals.len() == 0 {
        return None;
    }
    let mut out: Vec<i64> = Vec::new();
    let mut i: usize = 0;
    while i < vals.len()
        invariant
            i <= vals@.len(),
            out@.len() == i,
            forall|j: int| 0 <= j < i ==> 1 <= #[trigger] out@[j] <= i32::MAX as i64,
        decreases vals@.len() - i,
    {
        match json_as_i64(&vals[i]) {
            Some(d) => {
                if d < 1 || d > i32::MAX as i64 {
                    return None;
                }
                out.push(d);
            }
            None => {
                return None;
            }
        }
        i = i + 1;
    }
    Some(out)
}

/// Reads one parsed sidecar document as a descriptor: the two shapes under
/// "input_shape" and "output_shape", the two labels under "model_type" and
/// "framework". A missing or ill-typed member fails the whole candidate.
fn descriptor_from_json(v: &serde_json::Value) -> (r: Option<ModelDescriptor>)
    ensures
        r matches Some(d) ==> d.wf(),
{
    let input_shape = match json_member(v, "input_shape") {
        Some(f) => match json_as_array(f) {
            Some(a) => match parse_shape(a) {
                Some(s) => s,
                None => {
                    return None;
                },
            },
            None => {
                return None;
            },
        },
        None => {
            return None;
        },
    };
    let output_shape = match json_member(v, "output_shape") {
        Some(f) => match json_as_array(f) {
            Some(a) => match parse_shape(a) {
                Some(s) => s,
                None => {
                    return None;
                },
            },
            None => {
                return None;
            },
        },
        None => {
            return None;
        },
    };
    let model_type = match json_member(v, "model_type") {
        Some(f) => match json_as_str(f) {
            Some(s) => String::from_str(s),
            None => {
                return None;
            },
        },
        None => {
            return None;
        },
    };
    let framework = match json_member(v, "framework") {
        Some(f) => match json_as_str(f) {
            Some(s) => String::from_str(s),
            None => {
                return None;
            },
        },
        None => {
            return None;
        },
    };
    Some(ModelDescriptor { input_shape, output_shape, model_type, framework })
}

/// Parses one sidecar text into a descriptor. Malformed JSON and a
/// well-formed document of the wrong shape fail alike: the loader treats
/// both as "this candidate is unusable, try the next".
pub fn parse_descriptor(text: &str) -> (r: Option<ModelDescriptor>)
    ensures
        r matches Some(d) ==> d.wf(),
{
    match json_parse(text) {
        Some(v) => descriptor_from_json(&v),
        None => None,
    }
}

/// Parses every candidate sidecar text in order; a missing candidate stays
/// missing, a present one becomes a descriptor exactly when it parses.
pub fn parse_all(texts: &Vec<Option<String>>) -> (r: Vec<Option<ModelDescriptor>>)
    ensures
        r@.len() == texts@.len(),
        forall|i: int|
            0 <= i < texts@.len() && (#[trigger] texts@[i]) is None ==> r@[i] is None,
        forall|i: int|
            0 <= i < r@.len() ==> ((#[trigger] r@[i]) matches Some(d) ==> d.wf()),
{
    let mut r: Vec<Option<ModelDescriptor>> = Vec::new();
    let mut i: usize = 0;
    while i < texts.len()
        invariant
            i <= texts@.len(),
            r@.len() == i,
            forall|j: int| 0 <= j < i && (#[trigger] texts@[j]) is None ==> r@[j] is None,
            forall|j: int| 0 <= j < i ==> ((#[trigger] r@[j]) matches Some(d) ==> d.wf()),
        decreases texts@.len() - i,
    {
        match &texts[i] {
            Some(text) => {
                r.push(parse_descriptor(text.as_str()));
            },
            None => {
                r.push(None);
            },
        }
        i = i + 1;
    }
    r
}

/// The loader's governing rule, "best effort metadata, guaranteed
/// availability": the first candidate that parsed wins; when none did, the
/// default descriptor stands in and the result is flagged degraded.
pub fn select_descriptor(parsed: Vec<Option<ModelDescriptor>>) -> (r: (ModelDescriptor, bool))
    requires
        forall|i: int|
            0 <= i < parsed@.len() ==> ((#[trigger] parsed@[i]) matches Some(d) ==> d.wf()),
    ensures
        r.0.wf(),
        match first_parsed(parsed@) {
            Some(d) => r.0 == d && !r.1,
            None => is_default_descriptor(r.0) && r.1,
        },
{
    let ghost orig = parsed@;
    let mut rest = parsed;
    while rest.len() > 0
        invariant
            orig == parsed@,
            first_parsed(orig) == first_parsed(rest@),
            forall|i: int|
                0 <= i < rest@.len() ==> ((#[trigger] rest@[i]) matches Some(d) ==> d.wf()),
        decreases rest@.len(),
    {
        let ghost before = rest@;
        let head = rest.remove(0);
        proof {
            assert(rest@ =~= before.drop_first());
        }
        match head {
            Some(d) => {
                proof {
                    assert(first_parsed(before) == Some(d));
                }
                return (d, false);
            },
            None => {},
        }
    }
    (default_descriptor(), true)
}

/// Loads the model's metadata from the candidate sidecar texts, in order.
/// Every candidate is read on a best-effort basis; the call always yields a
/// well-formed descriptor, and the flag says whether the default had to
/// stand in. When no sidecar text is present at all, the result is exactly
/// the documented default, flagged degraded.
pub fn load_metadata(texts: &Vec<Option<String>>) -> (r: (ModelDescriptor, bool))
    ensures
        r.0.wf(),
        r.1 ==> is_default_descriptor(r.0),
        (forall|i: int| 0 <= i < texts@.len() ==> (#[trigger] texts@[i]) is None)
            ==> (r.1 && is_default_descriptor(r.0)),
        !r.1 ==> exists|i: int| 0 <= i < texts@.len() && (#[trigger] texts@[i]) is Some,
{
    let parsed = parse_all(texts);
    let ghost cands = parsed@;
    let r = select_descriptor(parsed);
    proof {
        lemma_first_parsed_some_exists(cands);
        if forall|i: int| 0 <= i < texts@.len() ==> (#[trigger] texts@[i]) is None {
            assert forall|i: int| 0 <= i < cands.len() implies (#[trigger] cands[i]) is None by {
                assert(texts@[i] is None);
            };
            lemma_first_parsed_all_none(cands);
        }
        if !r.1 {
            let i = choose|i: int| 0 <= i < cands.len() && (#[trigger] cands[i]) is Some;
            assert(texts@[i] is Some);
        }
    }
    r
}

} // verus!
