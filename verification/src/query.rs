//! Query-string construction for the three read endpoints. A present
//! parameter becomes `name=value`; present parameters are joined with `&`
//! and the whole set is prefixed with `?` exactly when it is non-empty, so
//! an absent leading parameter never leaves a stray separator behind.
use crate::text::{bool_to_str, spec_bool_str, spec_dec, u64_to_string};
use vstd::prelude::*;

verus! {

/// The parameters joined with `&`.
pub open spec fn join_amp(parts: Seq<Seq<char>>) -> Seq<char>
    decreases parts.len(),
{
    if parts.len() == 0 {
        Seq::empty()
    } else if parts.len() == 1 {
        parts[0]
    } else {
        join_amp(parts.drop_last()) + "&"@ + parts.last()
    }
}

/// The full query string: empty for no parameters, otherwise `?` followed
/// by the `&`-joined parameters.
pub open spec fn query_of(parts: Seq<Seq<char>>) -> Seq<char> {
    if parts.len() == 0 {
        Seq::empty()
    } else {
        "?"@ + join_amp(parts)
    }
}

/// An optional numeric parameter: nothing when absent, one entry made of
/// the `name=` prefix and the value when present.
pub open spec fn opt_dec_param(prefix: Seq<char>, v: Option<u64>) -> Seq<Seq<char>> {
    match v {
        Some(u) => seq![prefix + spec_dec(u as nat)],
        None => Seq::empty(),
    }
}

/// An optional boolean parameter.
pub open spec fn opt_bool_param(prefix: Seq<char>, v: Option<bool>) -> Seq<Seq<char>> {
    match v {
        Some(b) => seq![prefix + spec_bool_str(b)],
        None => Seq::empty(),
    }
}

/// The parameters of a beatmapsets request, in order.
pub open spec fn beatmapsets_params(limit: Option<u64>, offset: Option<u64>) -> Seq<
    Seq<char>,
> {
    opt_dec_param("limit="@, limit) + opt_dec_param("offset="@, offset)
}

/// The query string of a beatmapsets request.
pub open spec fn beatmapsets_query_spec(limit: Option<u64>, offset: Option<u64>) -> Seq<char> {
    query_of(beatmapsets_params(limit, offset))
}

/// The parameters of a scores request, in order; `mode` is always present.
pub open spec fn scores_params(
    limit: Option<u64>,
    offset: Option<u64>,
    include_fails: Option<bool>,
    mode: Seq<char>,
) -> Seq<Seq<char>> {
    opt_dec_param("limit="@, limit) + opt_dec_param("offset="@, offset) + opt_bool_param(
        "include_fails="@,
        include_fails,
    ) + seq!["mode="@ + mode]
}

/// The query string of a scores request.
pub open spec fn scores_query_spec(
    limit: Option<u64>,
    offset: Option<u64>,
    include_fails: Option<bool>,
    mode: Seq<char>,
) -> Seq<char> {
    query_of(scores_params(limit, offset, include_fails, mode))
}

proof fn lemma_join2(a: Seq<char>, b: Seq<char>)
    ensures
        join_amp(seq![a, b]) == a + "&"@ + b,
{
    assert(seq![a, b].drop_last() =~= seq![a]);
    assert(join_amp(seq![a]) == a);
}

proof fn lemma_join3(a: Seq<char>, b: Seq<char>, c: Seq<char>)
    ensures
        join_amp(seq![a, b, c]) == a + "&"@ + b + "&"@ + c,
{
    assert(seq![a, b, c].drop_last() =~= seq![a, b]);
    lemma_join2(a, b);
    assert(join_amp(seq![a, b, c]) == join_amp(seq![a, b]) + "&"@ + c);
}

proof fn lemma_join4(a: Seq<char>, b: Seq<char>, c: Seq<char>, d: Seq<char>)
    ensures
        join_amp(seq![a, b, c, d]) == a + "&"@ + b + "&"@ + c + "&"@ + d,
{
    assert(seq![a, b, c, d].drop_last() =~= seq![a, b, c]);
    lemma_join3(a, b, c);
    assert(join_amp(seq![a, b, c, d]) == join_amp(seq![a, b, c]) + "&"@ + d);
}

/// In every combination of present and absent `limit` and `offset`, the
/// beatmapsets query string holds exactly the present parameters: it is
/// empty when both are absent, otherwise it starts with `?`, joins the
/// present parameters with `&`, and never begins a parameter with a stray
/// separator — in particular, an absent `limit` with a present `offset`
/// yields `?offset=...`, not a string starting with `&`.
pub proof fn lemma_beatmapsets_query_cases(limit: Option<u64>, offset: Option<u64>)
    ensures
        limit is None && offset is None ==> beatmapsets_query_spec(limit, offset) == Seq::<
            char,
        >::empty(),
        limit is Some && offset is None ==> beatmapsets_query_spec(limit, offset) == "?"@
            + ("limit="@ + spec_dec(limit->0 as nat)),
        limit is None && offset is Some ==> beatmapsets_query_spec(limit, offset) == "?"@
            + ("offset="@ + spec_dec(offset->0 as nat)),
        limit is Some && offset is Some ==> beatmapsets_query_spec(limit, offset) == "?"@
            + ("limit="@ + spec_dec(limit->0 as nat) + "&"@ + ("offset="@ + spec_dec(
            offset->0 as nat,
        ))),
        (limit is Some || offset is Some) ==> beatmapsets_query_spec(limit, offset)[0] == '?',
{
    reveal_strlit("?");
    let ps = beatmapsets_params(limit, offset);
    match (limit, offset) {
        (None, None) => {
            assert(ps =~= Seq::<Seq<char>>::empty());
        },
        (Some(l), None) => {
            assert(ps =~= seq!["limit="@ + spec_dec(l as nat)]);
        },
        (None, Some(o)) => {
            assert(ps =~= seq!["offset="@ + spec_dec(o as nat)]);
        },
        (Some(l), Some(o)) => {
            assert(ps =~= seq![
                "limit="@ + spec_dec(l as nat),
                "offset="@ + spec_dec(o as nat),
            ]);
            lemma_join2("limit="@ + spec_dec(l as nat), "offset="@ + spec_dec(o as nat));
        },
    }
}

/// In every combination of the four scores-query parameters, the query
/// string holds exactly the present parameters in order, joined with `&`;
/// `mode` is always present, so the string always starts with `?`.
pub proof fn lemma_scores_query_cases(
    limit: Option<u64>,
    offset: Option<u64>,
    include_fails: Option<bool>,
    mode: Seq<char>,
)
    ensures
        limit is None && offset is None && include_fails is None ==> scores_query_spec(
            limit,
            offset,
            include_fails,
            mode,
        ) == "?"@ + ("mode="@ + mode),
        limit is Some && offset is None && include_fails is None ==> scores_query_spec(
            limit,
            offset,
            include_fails,
            mode,
        ) == "?"@ + ("limit="@ + spec_dec(limit->0 as nat) + "&"@ + ("mode="@ + mode)),
        limit is None && offset is Some && include_fails is None ==> scores_query_spec(
            limit,
            offset,
            include_fails,
            mode,
        ) == "?"@ + ("offset="@ + spec_dec(offset->0 as nat) + "&"@ + ("mode="@ + mode)),
        limit is None && offset is None && include_fails is Some ==> scores_query_spec(
            limit,
            offset,
            include_fails,
            mode,
        ) == "?"@ + ("include_fails="@ + spec_bool_str(include_fails->0) + "&"@ + ("mode="@
            + mode)),
        limit is Some && offset is Some && include_fails is None ==> scores_query_spec(
            limit,
            offset,
            include_fails,
            mode,
        ) == "?"@ + ("limit="@ + spec_dec(limit->0 as nat) + "&"@ + ("offset="@ + spec_dec(
            offset->0 as nat,
        )) + "&"@ + ("mode="@ + mode)),
        limit is Some && offset is None && include_fails is Some ==> scores_query_spec(
            limit,
            offset,
            include_fails,
            mode,
        ) == "?"@ + ("limit="@ + spec_dec(limit->0 as nat) + "&"@ + ("include_fails="@
            + spec_bool_str(include_fails->0)) + "&"@ + ("mode="@ + mode)),
        limit is None && offset is Some && include_fails is Some ==> scores_query_spec(
            limit,
            offset,
            include_fails,
            mode,
        ) == "?"@ + ("offset="@ + spec_dec(offset->0 as nat) + "&"@ + ("include_fails="@
            + spec_bool_str(include_fails->0)) + "&"@ + ("mode="@ + mode)),
        limit is Some && offset is Some && include_fails is Some ==> scores_query_spec(
            limit,
            offset,
            include_fails,
            mode,
        ) == "?"@ + ("limit="@ + spec_dec(limit->0 as nat) + "&"@ + ("offset="@ + spec_dec(
            offset->0 as nat,
        )) + "&"@ + ("include_fails="@ + spec_bool_str(include_fails->0)) + "&"@ + ("mode="@
            + mode)),
        scores_query_spec(limit, offset, include_fails, mode)[0] == '?',
{
    reveal_strlit("?");
    let ps = scores_params(limit, offset, include_fails, mode);
    let m = "mode="@ + mode;
    match (limit, offset, include_fails) {
        (None, None, None) => {
            assert(ps =~= seq![m]);
        },
        (Some(l), None, None) => {
            assert(ps =~= seq!["limit="@ + spec_dec(l as nat), m]);
            lemma_join2("limit="@ + spec_dec(l as nat), m);
        },
        (None, Some(o), None) => {
            assert(ps =~= seq!["offset="@ + spec_dec(o as nat), m]);
            lemma_join2("offset="@ + spec_dec(o as nat), m);
        },
        (None, None, Some(f)) => {
            assert(ps =~= seq!["include_fails="@ + spec_bool_str(f), m]);
            lemma_join2("include_fails="@ + spec_bool_str(f), m);
        },
        (Some(l), Some(o), None) => {
            assert(ps =~= seq![
                "limit="@ + spec_dec(l as nat),
                "offset="@ + spec_dec(o as nat),
                m,
            ]);
            lemma_join3("limit="@ + spec_dec(l as nat), "offset="@ + spec_dec(o as nat), m);
        },
        (Some(l), None, Some(f)) => {
            assert(ps =~= seq![
                "limit="@ + spec_dec(l as nat),
                "include_fails="@ + spec_bool_str(f),
                m,
            ]);
            lemma_join3("limit="@ + spec_dec(l as nat), "include_fails="@ + spec_bool_str(f), m);
        },
        (None, Some(o), Some(f)) => {
            assert(ps =~= seq![
                "offset="@ + spec_dec(o as nat),
                "include_fails="@ + spec_bool_str(f),
                m,
            ]);
            lemma_join3("offset="@ + spec_dec(o as nat), "include_fails="@ + spec_bool_str(f), m);
        },
        (Some(l), Some(o), Some(f)) => {
            assert(ps =~= seq![
                "limit="@ + spec_dec(l as nat),
                "offset="@ + spec_dec(o as nat),
                "include_fails="@ + spec_bool_str(f),
                m,
            ]);
            lemma_join4(
                "limit="@ + spec_dec(l as nat),
                "offset="@ + spec_dec(o as nat),
                "include_fails="@ + spec_bool_str(f),
                m,
            );
        },
    }
}

/// Joins rendered parameters into a query string.
fn join_query(parts: &Vec<String>) -> (q: String)
    ensures
        q@ == query_of(parts.deep_view()),
{
    let ghost dv = parts.deep_view();
    if parts.len() == 0 {
        String::new()
    } else {
        let mut q: String = "?".to_owned();
        q.append(parts[0].as_str());
        let mut i: usize = 1;
        proof {
            assert(dv.take(1) =~= seq![dv[0]]);
        }
        while i < parts.len()
            invariant
                1 <= i <= parts.len(),
                dv == parts.deep_view(),
                q@ == "?"@ + join_amp(dv.take(i as int)),
            decreases parts.len() - i,
        {
            q.append("&");
            q.append(parts[i].as_str());
            proof {
                assert(dv.take(i + 1).drop_last() =~= dv.take(i as int));
                assert(dv.take(i + 1).last() == dv[i as int]);
            }
            i = i + 1;
        }
        proof {
            assert(dv.take(parts.len() as int) =~= dv);
        }
        q
    }
}

/// Builds the query string of a beatmapsets request: `limit` then
/// `offset`, each only when present, `?`-prefixed only when non-empty.
pub fn beatmapsets_query(limit: Option<u64>, offset: Option<u64>) -> (q: String)
    ensures
        q@ == beatmapsets_query_spec(limit, offset),
{
    let mut parts: Vec<String> = Vec::new();
    if let Some(l) = limit {
        let mut p: String = "limit=".to_owned();
        p.append(u64_to_string(l).as_str());
        parts.push(p);
    }
    if let Some(o) = offset {
        let mut p: String = "offset=".to_owned();
        p.append(u64_to_string(o).as_str());
        parts.push(p);
    }
    proof {
        assert(parts.deep_view() =~= beatmapsets_params(limit, offset));
    }
    join_query(&parts)
}

/// Builds the query string of a scores request: `limit`, `offset` and
/// `include_fails` only when present, then `mode`, which is always sent.
pub fn scores_query(
    limit: Option<u64>,
    offset: Option<u64>,
    include_fails: Option<bool>,
    mode: &str,
) -> (q: String)
    ensures
        q@ == scores_query_spec(limit, offset, include_fails, mode@),
{
    let mut parts: Vec<String> = Vec::new();
    if let Some(l) = limit {
        let mut p: String = "limit=".to_owned();
        p.append(u64_to_string(l).as_str());
        parts.push(p);
    }
    if let Some(o) = offset {
        let mut p: String = "offset=".to_owned();
        p.append(u64_to_string(o).as_str());
        parts.push(p);
    }
    if let Some(f) = include_fails {
        let mut p: String = "include_fails=".to_owned();
        p.append(bool_to_str(f));
        parts.push(p);
    }
    let mut m: String = "mode=".to_owned();
    m.append(mode);
    parts.push(m);
    proof {
        assert(parts.deep_view() =~= scores_params(limit, offset, include_fails, mode@));
    }
    join_query(&parts)
}

} // verus!
