use vstd::prelude::*;

use crate::error::ClientError;
use crate::http::HttpMethod;
use crate::text::str_eq;

verus! {

/// The classification of a parameter's contribution to a request.
#[derive(Clone, Copy, Debug, PartialEq, Eq, Structural)]
pub enum Role {
    Path,
    Query,
    Json,
    Form,
    Headers,
    Args,
}

/// One parameter as declared: its binding name, and its role tag as
/// written — absent when the declaration carries none.
#[derive(Debug)]
pub struct ParamDecl {
    pub name: String,
    pub tag: Option<String>,
}

/// The view of one declaration: the name and the tag, as character
/// sequences.
pub type DeclView = (Seq<char>, Option<Seq<char>>);

impl View for ParamDecl {
    type V = DeclView;

    open spec fn view(&self) -> DeclView {
        (
            self.name@,
            match self.tag {
                Some(t) => Some(t@),
                None => None,
            },
        )
    }
}

/// One compiled parameter: its binding name and its resolved role.
#[derive(Debug)]
pub struct ParameterSpec {
    pub name: String,
    pub role: Role,
}

impl View for ParameterSpec {
    type V = (Seq<char>, Role);

    open spec fn view(&self) -> (Seq<char>, Role) {
        (self.name@, self.role)
    }
}

/// The role a tag written in the source stands for, if any.
pub open spec fn spec_role_of(tag: Seq<char>) -> Option<Role> {
    if tag == "path"@ {
        Some(Role::Path)
    } else if tag == "query"@ {
        Some(Role::Query)
    } else if tag == "json"@ {
        Some(Role::Json)
    } else if tag == "form"@ {
        Some(Role::Form)
    } else if tag == "headers"@ {
        Some(Role::Headers)
    } else if tag == "args"@ {
        Some(Role::Args)
    } else {
        None
    }
}

/// The role of one declaration: absent when the tag is missing or not a
/// role name.
pub open spec fn spec_decl_role(d: DeclView) -> Option<Role> {
    match d.1 {
        Some(t) => spec_role_of(t),
        None => None,
    }
}

/// The declaration claims the body, as JSON or as a form.
pub open spec fn spec_decl_is_body(d: DeclView) -> bool {
    spec_decl_role(d) == Some(Role::Json) || spec_decl_role(d) == Some(Role::Form)
}

/// The declaration carries exactly the given role.
pub open spec fn spec_decl_is(d: DeclView, r: Role) -> bool {
    spec_decl_role(d) == Some(r)
}

/// Declaration `i` is where a scan in declaration order first goes wrong,
/// as far as that one declaration shows: its role is missing or unknown,
/// or it claims the body, the headers or the bundle a second time.
pub open spec fn spec_fault_at(ds: Seq<DeclView>, i: int) -> bool {
    ||| spec_decl_role(ds[i]) is None
    ||| (spec_decl_is_body(ds[i]) && exists|j: int|
        0 <= j < i && #[trigger] spec_decl_is_body(ds[j]))
    ||| (spec_decl_is(ds[i], Role::Headers) && exists|j: int|
        0 <= j < i && #[trigger] spec_decl_is(ds[j], Role::Headers))
    ||| (spec_decl_is(ds[i], Role::Args) && exists|j: int|
        0 <= j < i && #[trigger] spec_decl_is(ds[j], Role::Args))
}

/// The declared parameter list is accepted: every parameter carries a
/// known role, at most one claims the body (JSON and form together), at
/// most one the headers, at most one the bundle.
pub open spec fn spec_params_ok(ds: Seq<DeclView>) -> bool {
    forall|i: int| 0 <= i < ds.len() ==> !(#[trigger] spec_fault_at(ds, i))
}

/// What compiling an accepted list returns: each declaration's name with
/// its resolved role, in declaration order.
pub open spec fn spec_compiled(ds: Seq<DeclView>) -> Seq<(Seq<char>, Role)> {
    Seq::new(ds.len(), |i: int| (ds[i].0, spec_decl_role(ds[i]).unwrap()))
}

/// The error reported for the faulty declaration `k`: which variant it
/// takes and which names it carries.
pub open spec fn spec_fault_error(ds: Seq<DeclView>, k: int, e: ClientError) -> bool {
    let d = ds[k];
    match d.1 {
        None => e matches ClientError::MissingRole { param } && param@ == d.0,
        Some(t) => {
            if spec_role_of(t) is None {
                e matches ClientError::UnknownRole { param, role } && param@ == d.0 && role@ == t
            } else if spec_decl_is_body(d) {
                e matches ClientError::DuplicateBodyRole { param } && param@ == d.0
            } else if spec_decl_is(d, Role::Headers) {
                e matches ClientError::DuplicateHeadersRole { param } && param@ == d.0
            } else {
                e matches ClientError::DuplicateArgsRole { param } && param@ == d.0
            }
        },
    }
}

/// The views of a declaration list.
pub open spec fn spec_decls(ds: Seq<ParamDecl>) -> Seq<DeclView> {
    Seq::new(ds.len(), |i: int| ds[i]@)
}

/// The views of a compiled parameter list.
pub open spec fn spec_specs(ps: Seq<ParameterSpec>) -> Seq<(Seq<char>, Role)> {
    Seq::new(ps.len(), |i: int| ps[i]@)
}

/// Resolves a role tag as written in the source.
pub fn parse_role(tag: &str) -> (r: Option<Role>)
    ensures
        r == spec_role_of(tag@),
{
    if str_eq(tag, "path") {
        Some(Role::Path)
    } else if str_eq(tag, "query") {
        Some(Role::Query)
    } else if str_eq(tag, "json") {
        Some(Role::Json)
    } else if str_eq(tag, "form") {
        Some(Role::Form)
    } else if str_eq(tag, "headers") {
        Some(Role::Headers)
    } else if str_eq(tag, "args") {
        Some(Role::Args)
    } else {
        None
    }
}

/// Validates and classifies the ordered parameter list of one operation.
///
/// The list is accepted exactly when every parameter carries a known
/// role and no second parameter claims the body, the headers or the
/// bundle; the compiled list pairs each name with its role, in order.
/// On rejection the error describes the first faulty declaration.
pub fn classify_params(decls: &Vec<ParamDecl>) -> (r: Result<Vec<ParameterSpec>, ClientError>)
    ensures
        (r is Ok) == spec_params_ok(spec_decls(decls@)),
        r matches Ok(ps) ==> spec_specs(ps@) == spec_compiled(spec_decls(decls@)),
        r matches Err(e) ==> exists|k: int|
            {
                &&& 0 <= k < decls@.len()
                &&& #[trigger] spec_fault_at(spec_decls(decls@), k)
                &&& forall|j: int| 0 <= j < k ==> !spec_fault_at(spec_decls(decls@), j)
                &&& spec_fault_error(spec_decls(decls@), k, e)
            },
{
    let ghost dv = spec_decls(decls@);
    let mut out: Vec<ParameterSpec> = Vec::new();
    let mut body_seen = false;
    let mut headers_seen = false;
    let mut args_seen = false;
    let mut i: usize = 0;
    while i < decls.len()
        invariant
            i <= decls@.len(),
            dv == spec_decls(decls@),
            dv.len() == decls@.len(),
            forall|j: int| 0 <= j < i ==> !(#[trigger] spec_fault_at(dv, j)),
            body_seen == exists|j: int| 0 <= j < i && #[trigger] spec_decl_is_body(dv[j]),
            headers_seen == exists|j: int|
                0 <= j < i && #[trigger] spec_decl_is(dv[j], Role::Headers),
            args_seen == exists|j: int| 0 <= j < i && #[trigger] spec_decl_is(dv[j], Role::Args),
            out@.len() == i,
            forall|j: int|
                0 <= j < i ==> (#[trigger] out@[j])@ == (dv[j].0, spec_decl_role(
                    dv[j],
                ).unwrap()),
        decreases decls@.len() - i,
    {
        let d = &decls[i];
        proof {
            assert(dv[i as int] == decls@[i as int]@);
        }
        match &d.tag {
            None => {
                proof {
                    assert(spec_fault_at(dv, i as int));
                }
                return Err(ClientError::MissingRole { param: d.name.clone() });
            },
            Some(tag) => {
                match parse_role(tag.as_str()) {
                    None => {
                        proof {
                            assert(spec_fault_at(dv, i as int));
                        }
                        return Err(
                            ClientError::UnknownRole {
                                param: d.name.clone(),
                                role: tag.clone(),
                            },
                        );
                    },
                    Some(role) => {
                        proof {
                            assert(spec_decl_role(dv[i as int]) == Some(role));
                        }
                        match role {
                            Role::Json | Role::Form => {
                                if body_seen {
                                    proof {
                                        assert(spec_fault_at(dv, i as int));
                                    }
                                    return Err(
                                        ClientError::DuplicateBodyRole { param: d.name.clone() },
                                    );
                                }
                                body_seen = true;
                            },
                            Role::Headers => {
                                if headers_seen {
                                    proof {
                                        assert(spec_fault_at(dv, i as int));
                                    }
                                    return Err(
                                        ClientError::DuplicateHeadersRole {
                                            param: d.name.clone(),
                                        },
                                    );
                                }
                                headers_seen = true;
                            },
                            Role::Args => {
                                if args_seen {
                                    proof {
                                        assert(spec_fault_at(dv, i as int));
                                    }
                                    return Err(
                                        ClientError::DuplicateArgsRole { param: d.name.clone() },
                                    );
                                }
                                args_seen = true;
                            },
                            _ => {},
                        }
                        out.push(ParameterSpec { name: d.name.clone(), role });
                        proof {
                            assert(spec_decl_is_body(dv[i as int]) <==> (role == Role::Json || role
                                == Role::Form));
                            assert(spec_decl_is(dv[i as int], Role::Headers) <==> role
                                == Role::Headers);
                            assert(spec_decl_is(dv[i as int], Role::Args) <==> role == Role::Args);
                            assert(!spec_fault_at(dv, i as int));
                        }
                    },
                }
            },
        }
        i = i + 1;
    }
    proof {
        assert(spec_specs(out@) =~= spec_compiled(dv));
    }
    Ok(out)
}

/// One remote operation, compiled: its name, verb, path template and
/// validated parameters. Built once, never mutated.
#[derive(Debug)]
pub struct OperationSpec {
    pub name: String,
    pub method: HttpMethod,
    pub path_template: String,
    pub params: Vec<ParameterSpec>,
}

/// Compiles one operation: validates its declared parameters and freezes
/// them, with the verb and the path template, into an `OperationSpec`.
pub fn compile_operation(
    name: String,
    method: HttpMethod,
    path_template: String,
    decls: &Vec<ParamDecl>,
) -> (r: Result<OperationSpec, ClientError>)
    ensures
        (r is Ok) == spec_params_ok(spec_decls(decls@)),
        r matches Ok(op) ==> op.name == name && op.method == method && op.path_template
            == path_template && spec_specs(op.params@) == spec_compiled(spec_decls(decls@)),
        r matches Err(e) ==> exists|k: int|
            {
                &&& 0 <= k < decls@.len()
                &&& #[trigger] spec_fault_at(spec_decls(decls@), k)
                &&& forall|j: int| 0 <= j < k ==> !spec_fault_at(spec_decls(decls@), j)
                &&& spec_fault_error(spec_decls(decls@), k, e)
            },
{
    let params = classify_params(decls)?;
    Ok(OperationSpec { name, method, path_template, params })
}

/// Declaring both a json-role parameter and a form-role parameter on one
/// operation is rejected, wherever the two stand in the list.
pub proof fn lemma_body_roles_conflict(ds: Seq<DeclView>, i: int, j: int)
    requires
        0 <= i < ds.len(),
        0 <= j < ds.len(),
        i != j,
        spec_decl_is(ds[i], Role::Json),
        spec_decl_is(ds[j], Role::Form),
    ensures
        !spec_params_ok(ds),
{
    if i < j {
        assert(spec_decl_is_body(ds[i]));
        assert(spec_fault_at(ds, j));
    } else {
        assert(spec_decl_is_body(ds[j]));
        assert(spec_fault_at(ds, i));
    }
}

} // verus!
