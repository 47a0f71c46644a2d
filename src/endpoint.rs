//! The socket endpoint that a client connects to.
use vstd::prelude::*;
use vstd::string::StringExecFns;

verus! {

/// The version of the Phoenix protocol that this client speaks.
pub const PROTOCOL_VERSION: &'static str = "2.0.0";

/// Auth parameters as a query suffix: `&key=value` for each pair, in order.
/// Nothing is URL-encoded.
pub open spec fn query_text(ps: Seq<(Seq<char>, Seq<char>)>) -> Seq<char>
    decreases ps.len(),
{
    if ps.len() == 0 {
        Seq::empty()
    } else {
        query_text(ps.drop_last()) + "&"@ + ps.last().0 + "="@ + ps.last().1
    }
}

/// Parameter pairs as text.
pub open spec fn params_view(ps: Seq<(&str, &str)>) -> Seq<(Seq<char>, Seq<char>)> {
    ps.map_values(|p: (&str, &str)| (p.0@, p.1@))
}

/// `<base>/websocket?vsn=<version>` followed by the parameters.
pub open spec fn endpoint_text(base: Seq<char>, ps: Seq<(Seq<char>, Seq<char>)>) -> Seq<char> {
    base + "/websocket?vsn="@ + PROTOCOL_VERSION@ + query_text(ps)
}

/// The address of the socket route under `base`, with the protocol version
/// and the auth parameters in the order given.
pub fn endpoint(base: &str, params: &Vec<(&str, &str)>) -> (r: String)
    ensures
        r@ == endpoint_text(base@, params_view(params@)),
{
    let ghost ps = params_view(params@);
    let mut out = String::from_str(base);
    out.append("/websocket?vsn=");
    out.append(PROTOCOL_VERSION);
    let mut i: usize = 0;
    assert(ps.subrange(0, 0) =~= Seq::<(Seq<char>, Seq<char>)>::empty());
    while i < params.len()
        invariant
            i <= params.len(),
            ps == params_view(params@),
            out@ == endpoint_text(base@, ps.subrange(0, i as int)),
        decreases params.len() - i,
    {
        let (k, v) = params[i];
        out.append("&");
        out.append(k);
        out.append("=");
        out.append(v);
        assert(ps.subrange(0, i + 1).drop_last() =~= ps.subrange(0, i as int));
        assert(out@ =~= endpoint_text(base@, ps.subrange(0, i + 1)));
        i = i + 1;
    }
    assert(ps.subrange(0, i as int) =~= ps);
    out
}

} // verus!
