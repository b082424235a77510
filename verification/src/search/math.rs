use crate::icons;
use crate::result::SearchResult;
use evalexpr::Context;
use vstd::prelude::*;
use vstd::string::StringExecFns;

verus! {

/// Whether the query evaluates as an expression of the evaluator's operator
/// language. The provider keeps the evaluator's builtin functions disabled
/// (see `eval_query`); with them out, the split between success and failure
/// depends on the query characters alone.
pub uninterp spec fn eval_succeeds(q: Seq<char>) -> bool;

/// Relies on evalexpr::eval_with_context, called against a fresh context
/// whose builtin functions are disabled. So restricted, evaluation is pure
/// and panic-free — the evaluator's arithmetic is checked, making overflow
/// and division by zero errors rather than panics, and its slicing builtins,
/// which can panic on byte offsets inside a character, are off — and whether
/// a value comes back depends on the query alone. The value's rendering
/// comes from its Display implementation and is handed back as it came;
/// nothing more is claimed of it, since parts of the operator language go
/// through platform-dependent floating point.
#[verifier::external_body]
fn eval_query(query: &str) -> (r: Option<String>)
    ensures
        r is Some <==> eval_succeeds(query@),
{
    let mut context: evalexpr::HashMapContext = evalexpr::HashMapContext::new();
    let _ = context.set_builtin_functions_disabled(true);
    match evalexpr::eval_with_context(query, &context) {
        Ok(value) => Some(value.to_string()),
        Err(_) => None,
    }
}

/// The text shown for an evaluated query whose value rendered as `value`:
/// `<query> = <value>`.
pub open spec fn math_text(q: Seq<char>, value: Seq<char>) -> Seq<char> {
    q + " = "@ + value
}

/// Holds when `r` is a result the math provider may produce for query `q`:
/// a calculator icon, no action, and a text of the shape `<query> = <value>`
/// for some rendering `value` of the evaluated result.
pub open spec fn is_math_result(q: Seq<char>, r: SearchResult) -> bool {
    &&& r.icon == icons::CALCULATOR
    &&& (exists|value: Seq<char>| r.text@ == #[trigger] math_text(q, value))
    &&& r.action is None
}

/// The math provider: where the query evaluates as an expression, sends
/// exactly one result with text `<query> = <value>`, a calculator icon and
/// no action; where evaluation fails, sends nothing and reports nothing.
/// Never blocks.
pub fn search(query: &str, sink: &mut Vec<SearchResult>)
    ensures
        !eval_succeeds(query@) ==> final(sink)@ == old(sink)@,
        eval_succeeds(query@) ==> final(sink)@.len() == old(sink)@.len() + 1
            && final(sink)@ == old(sink)@.push(final(sink)@.last())
            && is_math_result(query@, final(sink)@.last()),
{
    match eval_query(query) {
        Some(value) => {
            let text = String::from_str(query).concat(" = ").concat(value.as_str());
            proof {
                assert(text@ == math_text(query@, value@));
            }
            let result = SearchResult::default().icon(icons::CALCULATOR).text(text);
            sink.push(result);
        }
        None => {}
    }
}

} // verus!
