//! Credentials that the monitor reads from the cluster's secrets: for a
//! private repository, and for a private registry.
use vstd::prelude::*;

use crate::server::kube::args_are;

verus! {

/// A user name and a password.
#[derive(Debug)]
pub struct BasicAuth {
    pub username: String,
    pub password: String,
}

fn lit(s: &str) -> (r: String)
    ensures
        r@ == s@,
{
    String::from_str(s)
}

/// The `-o` argument that prints one key of a secret's data.
pub open spec fn secret_key_jsonpath(key: Seq<char>) -> Seq<char> {
    "jsonpath={.data."@ + key + "}"@
}

/// The arguments of `kubectl` that print one key of a secret (still in
/// base64, which `base64 -d` then decodes).
pub fn get_kf_secret_key_args(secret: &str, namespace: &str, key: &str) -> (r: Vec<String>)
    ensures
        args_are(
            r@,
            seq!["get"@, "secret"@, secret@, "-n"@, namespace@, "-o"@, secret_key_jsonpath(key@)],
        ),
{
    let mut r: Vec<String> = Vec::new();
    r.push(lit("get"));
    r.push(lit("secret"));
    r.push(lit(secret));
    r.push(lit("-n"));
    r.push(lit(namespace));
    r.push(lit("-o"));
    let mut p = lit("jsonpath={.data.");
    p.append(key);
    p.append("}");
    r.push(p);
    r
}

/// The credentials of a private repository, from the decoded `username` and
/// `password` keys of its secret. The user name is read first: where that
/// fails its error is returned, else the password's error, if any.
pub fn get_git_basic_auth<E>(username: Result<String, E>, password: Result<String, E>) -> (r: Result<
    BasicAuth,
    E,
>)
    ensures
        match (username, password) {
            (Ok(u), Ok(p)) => r matches Ok(a) && a.username@ == u@ && a.password@ == p@,
            (Err(e), _) => r == Err::<BasicAuth, E>(e),
            (Ok(_), Err(e)) => r == Err::<BasicAuth, E>(e),
        },
{
    let u = match username {
        Ok(u) => u,
        Err(e) => {
            return Err(e);
        },
    };
    let p = match password {
        Ok(p) => p,
        Err(e) => {
            return Err(e);
        },
    };
    Ok(BasicAuth { username: u, password: p })
}

/// The arguments of `kubectl` that print the data of a registry secret.
pub fn registry_secret_args(secret: &str, namespace: &str) -> (r: Vec<String>)
    ensures
        args_are(
            r@,
            seq!["get"@, "secret"@, secret@, "-n"@, namespace@, "-o"@, "jsonpath={.data}"@],
        ),
{
    let mut r: Vec<String> = Vec::new();
    r.push(lit("get"));
    r.push(lit("secret"));
    r.push(lit(secret));
    r.push(lit("-n"));
    r.push(lit(namespace));
    r.push(lit("-o"));
    r.push(lit("jsonpath={.data}"));
    r
}

/// The `jq` program that picks the Docker configuration out of a secret's data.
pub fn docker_config_filter() -> (r: String)
    ensures
        r@ == ".[\".dockerconfigjson\"]"@,
{
    lit(".[\".dockerconfigjson\"]")
}

/// The `jq` program that picks a field of the registry's entry in a Docker
/// configuration: `.auths["REGISTRY"].FIELD`.
pub open spec fn registry_field_query(registry: Seq<char>, field: Seq<char>) -> Seq<char> {
    ".auths[\""@ + registry + "\"]"@ + "."@ + field
}

/// The `jq` programs that read the user name and the password of a registry
/// from a Docker configuration.
pub fn get_cr_basic_auth_queries(registry: &str) -> (r: (String, String))
    ensures
        r.0@ == registry_field_query(registry@, "username"@),
        r.1@ == registry_field_query(registry@, "password"@),
{
    let mut base = lit(".auths[\"");
    base.append(registry);
    base.append("\"]");
    let mut u = base.clone();
    u.append(".");
    u.append("username");
    let mut p = base;
    p.append(".");
    p.append("password");
    (u, p)
}

} // verus!
