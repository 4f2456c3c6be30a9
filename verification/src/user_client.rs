use vstd::prelude::*;

use crate::client::{Client, ClientBuilder};
use crate::error::ClientError;
use crate::host::Host;
use crate::http::{HttpMethod, RequestBody};
use crate::request::{
    clone_pairs, spec_apply_subs, ArgsBundle, RequestPlan,
};
use crate::state::State;
use crate::text::{i64_to_string, spec_dec_int};

verus! {

/// The record the remote user service answers with.
#[derive(Debug, Default, PartialEq)]
pub struct User {
    pub id: i64,
    pub name: String,
}

impl Clone for User {
    fn clone(&self) -> (r: Self)
        ensures
            r == *self,
    {
        User { id: self.id, name: self.name.clone() }
    }
}

/// The bundled arguments of the update operation: a path substitution, a
/// query pair, a JSON body and header pairs, all carried by one value
/// through its four accessors.
#[derive(Debug)]
pub struct PutUserArgs {
    pub id: i64,
    pub q: String,
    pub data: User,
    pub headers: Vec<(String, String)>,
}

impl PutUserArgs {
    /// The path substitutions the bundle contributes.
    pub fn path(&self) -> (r: Vec<(String, String)>)
        ensures
            r.deep_view() == seq![("id"@, spec_dec_int(self.id as int))],
    {
        let mut r: Vec<(String, String)> = Vec::new();
        r.push((String::from_str("id"), i64_to_string(self.id)));
        proof {
            assert(r.deep_view() =~= seq![("id"@, spec_dec_int(self.id as int))]);
        }
        r
    }

    /// The query pairs the bundle contributes.
    pub fn query(&self) -> (r: Option<Vec<(String, String)>>)
        ensures
            r matches Some(q) && q.deep_view() == seq![("q"@, self.q@)],
    {
        let mut q: Vec<(String, String)> = Vec::new();
        q.push((String::from_str("q"), self.q.clone()));
        proof {
            assert(q.deep_view() =~= seq![("q"@, self.q@)]);
        }
        Some(q)
    }

    /// The body the bundle contributes.
    pub fn body(&self) -> (r: RequestBody<User>)
        ensures
            r == RequestBody::Json(self.data),
    {
        RequestBody::Json(self.data.clone())
    }

    /// The header pairs the bundle contributes.
    pub fn headers(&self) -> (r: Option<Vec<(String, String)>>)
        ensures
            r matches Some(h) && h.deep_view() == self.headers.deep_view(),
    {
        Some(clone_pairs(&self.headers))
    }

    /// All four contributions, joined into one bundle.
    pub fn bundle(&self) -> (r: ArgsBundle<User>)
        ensures
            r.path.deep_view() == seq![("id"@, spec_dec_int(self.id as int))],
            r.query matches Some(q) && q.deep_view() == seq![("q"@, self.q@)],
            r.body == RequestBody::Json(self.data),
            r.headers matches Some(h) && h.deep_view() == self.headers.deep_view(),
    {
        ArgsBundle {
            path: self.path(),
            query: self.query(),
            body: self.body(),
            headers: self.headers(),
        }
    }
}

/// The compiled client of the user service: one method per declared
/// operation, each building the complete request for one call. A
/// transport sends the plan and hands the status and the body text back
/// to `accept_response`.
#[derive(Debug)]
pub struct UserClient<H: Host, S> {
    pub client: Client<H, S>,
}

impl UserClient<String, ()> {
    /// A client with a fixed host and a base path, and no state.
    pub fn new(host: String, path: String) -> (r: Self)
        ensures
            r.client.host == host,
            r.client.path == path,
            r.wf(),
    {
        UserClient { client: Client { host, path, state: State::new(()) } }
    }

    /// A builder to configure a client step by step.
    pub fn builder() -> (r: ClientBuilder<String, ()>)
        ensures
            r.client.host@ == Seq::<char>::empty(),
            r.client.path@ == Seq::<char>::empty(),
            r.client.wf(),
    {
        ClientBuilder::new()
    }
}

impl<H: Host, S: 'static> UserClient<H, S> {
    /// The host resolver is in shape.
    pub open spec fn wf(&self) -> bool {
        self.client.wf()
    }

    /// Wraps an assembled client.
    pub fn from_client(client: Client<H, S>) -> (r: Self)
        ensures
            r.client == client,
    {
        UserClient { client }
    }

    /// `GET /find_by_id/<id>`, the identifier substituted into the path.
    pub fn find_by_id(&mut self, id: i64) -> (r: Result<RequestPlan<()>, ClientError>)
        requires
            old(self).wf(),
        ensures
            final(self).wf(),
            final(self).client.host.hosts() == old(self).client.host.hosts(),
            final(self).client.path == old(self).client.path,
            r is Ok,
            r matches Ok(plan) ==> {
                &&& plan.method == HttpMethod::Get
                &&& plan.url@ == old(self).client.host.hosts()[old(self).client.host.cursor()]
                    + old(self).client.path@ + spec_apply_subs(
                    "/find_by_id/<id>"@,
                    seq![("id"@, spec_dec_int(id as int))],
                )
                &&& plan.query.deep_view() == Seq::<(Seq<char>, Seq<char>)>::empty()
                &&& plan.body is Empty
                &&& plan.headers.deep_view() == Seq::<(Seq<char>, Seq<char>)>::empty()
            },
    {
        let mut subs: Vec<(String, String)> = Vec::new();
        subs.push((String::from_str("id"), i64_to_string(id)));
        let empty_pairs: Vec<(String, String)> = Vec::new();
        proof {
            assert(subs.deep_view() =~= seq![("id"@, spec_dec_int(id as int))]);
            assert(subs.deep_view() + Seq::<(Seq<char>, Seq<char>)>::empty() =~= subs.deep_view());
            assert(empty_pairs.deep_view() =~= Seq::<(Seq<char>, Seq<char>)>::empty());
        }
        self.client.prepare(
            HttpMethod::Get,
            "/find_by_id/<id>",
            &subs,
            &empty_pairs,
            RequestBody::Empty,
            &empty_pairs,
            None,
        )
    }

    /// `POST /new_user`, the record as the JSON body.
    pub fn new_user(&mut self, user: &User) -> (r: Result<RequestPlan<User>, ClientError>)
        requires
            old(self).wf(),
        ensures
            final(self).wf(),
            final(self).client.host.hosts() == old(self).client.host.hosts(),
            final(self).client.path == old(self).client.path,
            r is Ok,
            r matches Ok(plan) ==> {
                &&& plan.method == HttpMethod::Post
                &&& plan.url@ == old(self).client.host.hosts()[old(self).client.host.cursor()]
                    + old(self).client.path@ + "/new_user"@
                &&& plan.query.deep_view() == Seq::<(Seq<char>, Seq<char>)>::empty()
                &&& plan.body == RequestBody::Json(*user)
                &&& plan.headers.deep_view() == Seq::<(Seq<char>, Seq<char>)>::empty()
            },
    {
        let empty_subs: Vec<(String, String)> = Vec::new();
        let empty_pairs: Vec<(String, String)> = Vec::new();
        proof {
            assert(empty_subs.deep_view() =~= Seq::<(Seq<char>, Seq<char>)>::empty());
            assert(empty_subs.deep_view() + Seq::<(Seq<char>, Seq<char>)>::empty()
                =~= Seq::<(Seq<char>, Seq<char>)>::empty());
        }
        self.client.prepare(
            HttpMethod::Post,
            "/new_user",
            &empty_subs,
            &empty_pairs,
            RequestBody::Json(user.clone()),
            &empty_pairs,
            None,
        )
    }

    /// `POST /new_user`, decoded downstream as a bare string instead of
    /// JSON; the request built is the same.
    pub fn new_user_bare_string(&mut self, user: &User) -> (r: Result<
        RequestPlan<User>,
        ClientError,
    >)
        requires
            old(self).wf(),
        ensures
            final(self).wf(),
            final(self).client.host.hosts() == old(self).client.host.hosts(),
            final(self).client.path == old(self).client.path,
            r is Ok,
            r matches Ok(plan) ==> {
                &&& plan.method == HttpMethod::Post
                &&& plan.url@ == old(self).client.host.hosts()[old(self).client.host.cursor()]
                    + old(self).client.path@ + "/new_user"@
                &&& plan.body == RequestBody::Json(*user)
            },
    {
        self.new_user(user)
    }

    /// `GET /headers`, a JSON body and explicit header pairs.
    pub fn headers(&mut self, age: &i64, headers: Vec<(String, String)>) -> (r: Result<
        RequestPlan<i64>,
        ClientError,
    >)
        requires
            old(self).wf(),
        ensures
            final(self).wf(),
            final(self).client.host.hosts() == old(self).client.host.hosts(),
            final(self).client.path == old(self).client.path,
            r is Ok,
            r matches Ok(plan) ==> {
                &&& plan.method == HttpMethod::Get
                &&& plan.url@ == old(self).client.host.hosts()[old(self).client.host.cursor()]
                    + old(self).client.path@ + "/headers"@
                &&& plan.query.deep_view() == Seq::<(Seq<char>, Seq<char>)>::empty()
                &&& plan.body == RequestBody::Json(*age)
                &&& plan.headers.deep_view() == headers.deep_view()
            },
    {
        let empty_subs: Vec<(String, String)> = Vec::new();
        let empty_pairs: Vec<(String, String)> = Vec::new();
        proof {
            assert(empty_subs.deep_view() =~= Seq::<(Seq<char>, Seq<char>)>::empty());
            assert(empty_subs.deep_view() + Seq::<(Seq<char>, Seq<char>)>::empty()
                =~= Seq::<(Seq<char>, Seq<char>)>::empty());
            assert(headers.deep_view() + Seq::<(Seq<char>, Seq<char>)>::empty()
                =~= headers.deep_view());
        }
        self.client.prepare(
            HttpMethod::Get,
            "/headers",
            &empty_subs,
            &empty_pairs,
            RequestBody::Json(*age),
            &headers,
            None,
        )
    }

    /// `PUT /put_user/<id>`, every variable part carried by the bundle.
    pub fn put_user(&mut self, args: PutUserArgs) -> (r: Result<RequestPlan<User>, ClientError>)
        requires
            old(self).wf(),
        ensures
            final(self).wf(),
            final(self).client.host.hosts() == old(self).client.host.hosts(),
            final(self).client.path == old(self).client.path,
            r is Ok,
            r matches Ok(plan) ==> {
                &&& plan.method == HttpMethod::Put
                &&& plan.url@ == old(self).client.host.hosts()[old(self).client.host.cursor()]
                    + old(self).client.path@ + spec_apply_subs(
                    "/put_user/<id>"@,
                    seq![("id"@, spec_dec_int(args.id as int))],
                )
                &&& plan.query.deep_view() == seq![("q"@, args.q@)]
                &&& plan.body == RequestBody::Json(args.data)
                &&& plan.headers.deep_view() == args.headers.deep_view()
            },
    {
        let bundle = args.bundle();
        let empty_subs: Vec<(String, String)> = Vec::new();
        let empty_pairs: Vec<(String, String)> = Vec::new();
        proof {
            assert(empty_subs.deep_view() =~= Seq::<(Seq<char>, Seq<char>)>::empty());
            assert(empty_subs.deep_view() + bundle.path.deep_view() =~= bundle.path.deep_view());
            assert(empty_pairs.deep_view() =~= Seq::<(Seq<char>, Seq<char>)>::empty());
        }
        let r = self.client.prepare(
            HttpMethod::Put,
            "/put_user/<id>",
            &empty_subs,
            &empty_pairs,
            RequestBody::Empty,
            &empty_pairs,
            Some(bundle),
        );
        r
    }
}

} // verus!
