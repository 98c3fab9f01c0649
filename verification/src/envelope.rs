//! The response envelope: exactly one line of JSON carrying the echoed
//! request id and either a `result` or an `error` object.
use vstd::prelude::*;
use crate::json::{spec_json_str, json_quote};
use crate::text::{spec_dec_int, dec_i64};

verus! {

/// A success line: the envelope around `result`, with the request's `id`
/// spliced in verbatim.
pub open spec fn spec_ok_env(id: Seq<char>, result: Seq<char>) -> Seq<char> {
    "{\"jsonrpc\":\"2.0\",\"id\":"@ + id + ",\"result\":"@ + result + "}"@
}

/// An error line: the envelope around an error object with `code` and
/// `message`, with the request's `id` spliced in verbatim.
pub open spec fn spec_err_env(id: Seq<char>, code: int, msg: Seq<char>) -> Seq<char> {
    "{\"jsonrpc\":\"2.0\",\"id\":"@ + id + ",\"error\":{\"code\":"@ + spec_dec_int(code)
        + ",\"message\":"@ + spec_json_str(msg) + "}}"@
}

pub fn ok_env(id: &str, result: &str) -> (r: String)
    ensures
        r@ == spec_ok_env(id@, result@),
{
    let mut out = String::new();
    out.append("{\"jsonrpc\":\"2.0\",\"id\":");
    out.append(id);
    out.append(",\"result\":");
    out.append(result);
    out.append("}");
    proof {
        assert(out@ =~= spec_ok_env(id@, result@));
    }
    out
}

pub fn err_env(id: &str, code: i64, msg: &str) -> (r: String)
    ensures
        r@ == spec_err_env(id@, code as int, msg@),
{
    let mut out = String::new();
    out.append("{\"jsonrpc\":\"2.0\",\"id\":");
    out.append(id);
    out.append(",\"error\":{\"code\":");
    out.append(dec_i64(code).as_str());
    out.append(",\"message\":");
    out.append(json_quote(msg).as_str());
    out.append("}}");
    proof {
        assert(out@ =~= spec_err_env(id@, code as int, msg@));
    }
    out
}

/// The given texts joined with commas, as the elements of a JSON array.
pub open spec fn spec_join(items: Seq<Seq<char>>) -> Seq<char>
    decreases items.len(),
{
    if items.len() == 0 {
        Seq::empty()
    } else if items.len() == 1 {
        items[0]
    } else {
        items[0] + ","@ + spec_join(items.skip(1))
    }
}

pub proof fn lemma_join_snoc(items: Seq<Seq<char>>, x: Seq<char>)
    requires
        items.len() >= 1,
    ensures
        spec_join(items.push(x)) == spec_join(items) + ","@ + x,
    decreases items.len(),
{
    if items.len() == 1 {
        assert(items.push(x).len() == 2);
        assert(items.push(x)[0] == items[0]);
        assert(items.push(x).skip(1) =~~= seq![x]);
        assert(spec_join(seq![x]) == x);
        assert(items[0] + ","@ + x == spec_join(items) + ","@ + x);
    } else {
        assert(items.push(x)[0] == items[0]);
        assert(items.push(x).skip(1) =~~= items.skip(1).push(x));
        lemma_join_snoc(items.skip(1), x);
        assert(items[0] + ","@ + (spec_join(items.skip(1)) + ","@ + x) =~= (items[0] + ","@
            + spec_join(items.skip(1))) + ","@ + x);
    }
}

} // verus!
