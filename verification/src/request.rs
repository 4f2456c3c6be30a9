use vstd::prelude::*;

use crate::error::ClientError;
use crate::http::{HttpMethod, RequestBody};
use crate::text::{
    lemma_replace_absent, lemma_replace_two_occurrences, replace_all, spec_contains,
    spec_match_at, spec_replace,
};

verus! {

/// A placeholder as it stands in a path template: the name between
/// angle brackets.
pub open spec fn spec_placeholder(name: Seq<char>) -> Seq<char> {
    seq!['<'] + name + seq!['>']
}

/// The path after applying the substitutions in order: each step
/// replaces every occurrence of its placeholder by its value. A
/// placeholder absent from the template leaves it unchanged.
pub open spec fn spec_apply_subs(path: Seq<char>, subs: Seq<(Seq<char>, Seq<char>)>) -> Seq<char>
    decreases subs.len(),
{
    if subs.len() == 0 {
        path
    } else {
        spec_apply_subs(
            spec_replace(path, spec_placeholder(subs[0].0), subs[0].1),
            subs.skip(1),
        )
    }
}

/// Substitutions applied one list after the other reach the same path as
/// the two lists joined.
pub proof fn lemma_apply_subs_concat(
    path: Seq<char>,
    a: Seq<(Seq<char>, Seq<char>)>,
    b: Seq<(Seq<char>, Seq<char>)>,
)
    ensures
        spec_apply_subs(path, a + b) == spec_apply_subs(spec_apply_subs(path, a), b),
    decreases a.len(),
{
    if a.len() == 0 {
        assert(a + b =~= b);
    } else {
        assert((a + b)[0] == a[0]);
        assert((a + b).skip(1) =~= a.skip(1) + b);
        lemma_apply_subs_concat(
            spec_replace(path, spec_placeholder(a[0].0), a[0].1),
            a.skip(1),
            b,
        );
    }
}

/// A placeholder absent from the template is a no-op: the one
/// substitution for it leaves the template unchanged.
pub proof fn lemma_substitute_absent(template: Seq<char>, name: Seq<char>, val: Seq<char>)
    requires
        !spec_contains(template, spec_placeholder(name)),
    ensures
        spec_apply_subs(template, seq![(name, val)]) == template,
{
    let ph = spec_placeholder(name);
    let subs = seq![(name, val)];
    assert(ph.len() >= 1);
    lemma_replace_absent(template, ph, val);
    assert(subs.len() == 1);
    assert(subs[0] == (name, val));
    assert(subs.skip(1) =~= Seq::<(Seq<char>, Seq<char>)>::empty());
    assert(spec_apply_subs(template, subs) == spec_apply_subs(
        spec_replace(template, ph, val),
        subs.skip(1),
    ));
}

/// A template holding a placeholder exactly twice has both occurrences
/// replaced by the one substitution for it. The template is given
/// decomposed as `a + <name> + b + <name> + c`, with the side conditions
/// that say that the left-to-right scan finds no occurrence before those
/// two.
pub proof fn lemma_substitute_two_occurrences(
    a: Seq<char>,
    b: Seq<char>,
    c: Seq<char>,
    name: Seq<char>,
    val: Seq<char>,
)
    requires
        forall|i: int|
            0 <= i < a.len() ==> !spec_match_at(
                a + spec_placeholder(name) + b + spec_placeholder(name) + c,
                spec_placeholder(name),
                i,
            ),
        forall|i: int|
            0 <= i < b.len() ==> !spec_match_at(
                b + spec_placeholder(name) + c,
                spec_placeholder(name),
                i,
            ),
        !spec_contains(c, spec_placeholder(name)),
    ensures
        spec_apply_subs(
            a + spec_placeholder(name) + b + spec_placeholder(name) + c,
            seq![(name, val)],
        ) == a + val + b + val + c,
{
    let ph = spec_placeholder(name);
    let subs = seq![(name, val)];
    assert(ph.len() >= 1);
    lemma_replace_two_occurrences(a, b, c, ph, val);
    let t = a + ph + b + ph + c;
    assert(subs.len() == 1);
    assert(subs[0] == (name, val));
    assert(subs.skip(1) =~= Seq::<(Seq<char>, Seq<char>)>::empty());
    assert(spec_apply_subs(t, subs) == spec_apply_subs(
        spec_replace(t, ph, val),
        subs.skip(1),
    ));
}

fn placeholder(name: &String) -> (r: String)
    ensures
        r@ == spec_placeholder(name@),
{
    let mut r = String::from_str("<");
    r.append(name.as_str());
    r.append(">");
    proof {
        reveal_strlit("<");
        reveal_strlit(">");
        assert(("<")@ =~= seq!['<']);
        assert((">")@ =~= seq!['>']);
    }
    r
}

/// Resolves a path template against an ordered list of substitutions:
/// each pair names a placeholder and the text that replaces every one of
/// its occurrences.
pub fn render_path(template: &str, subs: &Vec<(String, String)>) -> (r: String)
    ensures
        r@ == spec_apply_subs(template@, subs.deep_view()),
{
    let ghost sv = subs.deep_view();
    let mut path = String::from_str(template);
    let mut i: usize = 0;
    proof {
        assert(sv.skip(0) =~= sv);
    }
    while i < subs.len()
        invariant
            i <= subs@.len(),
            sv == subs.deep_view(),
            sv.len() == subs@.len(),
            spec_apply_subs(template@, sv) == spec_apply_subs(path@, sv.skip(i as int)),
        decreases subs@.len() - i,
    {
        let ph = placeholder(&subs[i].0);
        proof {
            assert(sv[i as int] == subs@[i as int].deep_view());
            assert(sv.skip(i as int)[0] == sv[i as int]);
            assert(sv.skip(i as int).skip(1) =~= sv.skip(i + 1));
        }
        path = replace_all(path.as_str(), ph.as_str(), subs[i].1.as_str());
        i = i + 1;
    }
    proof {
        assert(sv.skip(sv.len() as int) =~= Seq::<(Seq<char>, Seq<char>)>::empty());
    }
    path
}

/// A single structured value carrying an entire call's variable parts,
/// as an alternative to several individually-tagged scalar parameters:
/// extra path substitutions, optional query pairs, a body variant, and
/// optional header pairs.
#[derive(Debug)]
pub struct ArgsBundle<B> {
    pub path: Vec<(String, String)>,
    pub query: Option<Vec<(String, String)>>,
    pub body: RequestBody<B>,
    pub headers: Option<Vec<(String, String)>>,
}

/// A complete request, ready for a transport to send: the verb, the URL
/// with the parts it was joined from, the query pairs, the resolved body
/// and the header pairs. The parts stand beside the URL so that a
/// pre-send hook can inspect each on its own.
#[derive(Debug)]
pub struct RequestPlan<B> {
    pub method: HttpMethod,
    pub host: String,
    pub base_path: String,
    pub path: String,
    pub url: String,
    pub query: Vec<(String, String)>,
    pub body: RequestBody<B>,
    pub headers: Vec<(String, String)>,
}

impl<B> RequestPlan<B> {
    /// The URL is exactly the host, the base path and the resolved path,
    /// joined.
    pub open spec fn wf(&self) -> bool {
        self.url@ == self.host@ + self.base_path@ + self.path@
    }
}

/// The extra path substitutions a bundle contributes.
pub open spec fn spec_bundle_subs<B>(bundle: Option<ArgsBundle<B>>) -> Seq<(Seq<char>, Seq<char>)> {
    match bundle {
        Some(b) => b.path.deep_view(),
        None => Seq::empty(),
    }
}

/// The query pairs a bundle contributes.
pub open spec fn spec_bundle_query<B>(bundle: Option<ArgsBundle<B>>) -> Seq<
    (Seq<char>, Seq<char>),
> {
    match bundle {
        Some(b) => match b.query {
            Some(q) => q.deep_view(),
            None => Seq::empty(),
        },
        None => Seq::empty(),
    }
}

/// The header pairs a bundle contributes.
pub open spec fn spec_bundle_headers<B>(bundle: Option<ArgsBundle<B>>) -> Seq<
    (Seq<char>, Seq<char>),
> {
    match bundle {
        Some(b) => match b.headers {
            Some(h) => h.deep_view(),
            None => Seq::empty(),
        },
        None => Seq::empty(),
    }
}

/// A body is supplied twice: by a scalar json or form parameter and by
/// the bundle at once.
pub open spec fn spec_body_conflict<B>(
    body: RequestBody<B>,
    bundle: Option<ArgsBundle<B>>,
) -> bool {
    body.spec_is_some() && match bundle {
        Some(b) => b.body.spec_is_some(),
        None => false,
    }
}

/// The one body that takes effect: the scalar one when present, else the
/// bundle's, else none.
pub open spec fn spec_effective_body<B>(
    body: RequestBody<B>,
    bundle: Option<ArgsBundle<B>>,
) -> RequestBody<B> {
    if body.spec_is_some() {
        body
    } else {
        match bundle {
            Some(b) => b.body,
            None => RequestBody::Empty,
        }
    }
}

/// Appends a copy of every pair of `src` to `dst`, in order.
fn extend_pairs(dst: &mut Vec<(String, String)>, src: &Vec<(String, String)>)
    ensures
        final(dst).deep_view() == old(dst).deep_view() + src.deep_view(),
{
    let mut i: usize = 0;
    while i < src.len()
        invariant
            i <= src@.len(),
            dst@.len() == old(dst)@.len() + i,
            forall|j: int| 0 <= j < old(dst)@.len() ==> dst@[j] == old(dst)@[j],
            forall|j: int|
                0 <= j < i ==> (#[trigger] dst@[old(dst)@.len() + j]).deep_view()
                    == src@[j].deep_view(),
        decreases src@.len() - i,
    {
        let pair = (src[i].0.clone(), src[i].1.clone());
        dst.push(pair);
        i = i + 1;
    }
    proof {
        let ghost base = old(dst)@.len() as int;
        assert forall|k: int| 0 <= k < dst@.len() implies dst@[k].deep_view() == (old(
            dst,
        ).deep_view() + src.deep_view())[k] by {
            if k < base {
                assert(dst@[k] == old(dst)@[k]);
            } else {
                assert(dst@[base + (k - base)].deep_view() == src@[k - base].deep_view());
            }
        }
        assert(dst.deep_view() =~= old(dst).deep_view() + src.deep_view());
    }
}

/// A copy of a list of string pairs.
pub fn clone_pairs(src: &Vec<(String, String)>) -> (r: Vec<(String, String)>)
    ensures
        r.deep_view() == src.deep_view(),
{
    let mut r: Vec<(String, String)> = Vec::new();
    extend_pairs(&mut r, src);
    proof {
        assert(r.deep_view() =~= src.deep_view());
    }
    r
}

/// Builds the complete request for one call, following the operation's
/// plan: resolve the path from the scalar substitutions and then the
/// bundle's, join host, base path and path into the URL, join the scalar
/// and bundle query pairs, resolve the one body, and join the scalar and
/// bundle header pairs. The call fails only when a body is supplied
/// twice.
pub fn build_request<B>(
    method: HttpMethod,
    host: String,
    base_path: &str,
    path_template: &str,
    path_subs: &Vec<(String, String)>,
    query: &Vec<(String, String)>,
    body: RequestBody<B>,
    headers: &Vec<(String, String)>,
    bundle: Option<ArgsBundle<B>>,
) -> (r: Result<RequestPlan<B>, ClientError>)
    ensures
        (r is Ok) == !spec_body_conflict(body, bundle),
        r matches Ok(plan) ==> {
            &&& plan.method == method
            &&& plan.host@ == host@
            &&& plan.base_path@ == base_path@
            &&& plan.path@ == spec_apply_subs(
                path_template@,
                path_subs.deep_view() + spec_bundle_subs(bundle),
            )
            &&& plan.wf()
            &&& plan.url@ == host@ + base_path@ + spec_apply_subs(
                path_template@,
                path_subs.deep_view() + spec_bundle_subs(bundle),
            )
            &&& plan.query.deep_view() == query.deep_view() + spec_bundle_query(bundle)
            &&& plan.body == spec_effective_body(body, bundle)
            &&& plan.headers.deep_view() == headers.deep_view() + spec_bundle_headers(bundle)
        },
        r matches Err(e) ==> e == ClientError::BodyDeclaredTwice,
{
    let scalar_body = body.is_some();
    if scalar_body {
        if let Some(b) = &bundle {
            if b.body.is_some() {
                return Err(ClientError::BodyDeclaredTwice);
            }
        }
    }
    let resolved = render_path(path_template, path_subs);
    let base = String::from_str(base_path);
    let mut url = host.clone();
    url.append(base_path);
    let mut plan_query: Vec<(String, String)> = Vec::new();
    extend_pairs(&mut plan_query, query);
    let mut plan_headers: Vec<(String, String)> = Vec::new();
    extend_pairs(&mut plan_headers, headers);
    proof {
        assert(plan_query.deep_view() =~= query.deep_view());
        assert(plan_headers.deep_view() =~= headers.deep_view());
    }
    match bundle {
        None => {
            url.append(resolved.as_str());
            proof {
                assert(path_subs.deep_view() + spec_bundle_subs(bundle) =~= path_subs.deep_view());
                assert(plan_query.deep_view() =~= query.deep_view() + spec_bundle_query(bundle));
                assert(plan_headers.deep_view() =~= headers.deep_view() + spec_bundle_headers(
                    bundle,
                ));
            }
            Ok(
                RequestPlan {
                    method,
                    host,
                    base_path: base,
                    path: resolved,
                    url,
                    query: plan_query,
                    body,
                    headers: plan_headers,
                },
            )
        },
        Some(b) => {
            let ArgsBundle { path: b_path, query: b_query, body: b_body, headers: b_headers } = b;
            let resolved = render_path(resolved.as_str(), &b_path);
            proof {
                lemma_apply_subs_concat(
                    path_template@,
                    path_subs.deep_view(),
                    b_path.deep_view(),
                );
            }
            url.append(resolved.as_str());
            match &b_query {
                Some(q) => extend_pairs(&mut plan_query, q),
                None => {
                    proof {
                        assert(plan_query.deep_view() =~= query.deep_view() + spec_bundle_query(
                            bundle,
                        ));
                    }
                },
            }
            match &b_headers {
                Some(h) => extend_pairs(&mut plan_headers, h),
                None => {
                    proof {
                        assert(plan_headers.deep_view() =~= headers.deep_view()
                            + spec_bundle_headers(bundle));
                    }
                },
            }
            let plan_body = if scalar_body {
                body
            } else {
                b_body
            };
            Ok(
                RequestPlan {
                    method,
                    host,
                    base_path: base,
                    path: resolved,
                    url,
                    query: plan_query,
                    body: plan_body,
                    headers: plan_headers,
                },
            )
        },
    }
}

/// Accepts a transport's answer: a success status hands the body text
/// on, any other status is an error carrying the status and the body.
pub fn accept_response(status: u16, body: String) -> (r: Result<String, ClientError>)
    ensures
        (r is Ok) == (200 <= status < 300),
        r matches Ok(text) ==> text == body,
        r matches Err(e) ==> e == (ClientError::HttpStatus { status, body }),
{
    if 200 <= status && status < 300 {
        Ok(body)
    } else {
        Err(ClientError::HttpStatus { status, body })
    }
}

} // verus!
