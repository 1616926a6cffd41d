//! What the server asks of the cluster through `kubectl`: the arguments of
//! each call, the patches it applies to a notebook, and what it reads from
//! the answers.
use vstd::prelude::*;

use crate::dto::{NotebookId, NotebookIdView};
use crate::server::config::Config;
use crate::server::json::{get_path2, get_path3, path2, path3, text_of, Json};
use crate::text::{chars_of, has_prefix, split_words, string_of_chars, words};

verus! {

/// A list of arguments with exactly these strings.
pub open spec fn args_are(v: Seq<String>, expected: Seq<Seq<char>>) -> bool {
    v.len() == expected.len() && forall|i: int| 0 <= i < v.len() ==> (#[trigger] v[i])@ == expected[i]
}

fn lit(s: &str) -> (r: String)
    ensures
        r@ == s@,
{
    String::from_str(s)
}

// ---------------------------------------------------------------------------
// Listing names
// ---------------------------------------------------------------------------

/// The `-o` argument that lists the names of the items.
pub open spec fn names_jsonpath() -> Seq<char> {
    "jsonpath={.items[*].metadata.name}"@
}

/// The arguments of `kubectl get KIND`, in one namespace (`-n NS`) or in all
/// (`-A`), printing the names of the items.
pub open spec fn list_names_args(kind: Seq<char>, namespace: Option<Seq<char>>) -> Seq<Seq<char>> {
    match namespace {
        Some(ns) => seq!["get"@, kind, "-n"@, ns, "-o"@, names_jsonpath()],
        None => seq!["get"@, kind, "-A"@, "-o"@, names_jsonpath()],
    }
}

fn list_names(kind: String, namespace: Option<&str>) -> (r: Vec<String>)
    ensures
        args_are(
            r@,
            list_names_args(
                kind@,
                match namespace {
                    Some(ns) => Some(ns@),
                    None => None,
                },
            ),
        ),
{
    let mut r: Vec<String> = Vec::new();
    r.push(lit("get"));
    r.push(kind);
    match namespace {
        Some(ns) => {
            r.push(lit("-n"));
            r.push(lit(ns));
        },
        None => {
            r.push(lit("-A"));
        },
    }
    r.push(lit("-o"));
    r.push(lit("jsonpath={.items[*].metadata.name}"));
    r
}

/// The arguments of `kubectl` that list the notebooks, of one namespace or
/// of all.
pub fn kf_notebooks_args(namespace: Option<&str>, config: &Config) -> (r: Vec<String>)
    ensures
        args_are(
            r@,
            list_names_args(
                config.kubeflow.notebook_resource@,
                match namespace {
                    Some(ns) => Some(ns@),
                    None => None,
                },
            ),
        ),
{
    list_names(config.kubeflow.notebook_resource.clone(), namespace)
}

/// The arguments of `kubectl` that list the secrets, of one namespace or of all.
pub fn kf_secrets_args(namespace: Option<&str>) -> (r: Vec<String>)
    ensures
        args_are(
            r@,
            list_names_args(
                "secrets"@,
                match namespace {
                    Some(ns) => Some(ns@),
                    None => None,
                },
            ),
        ),
{
    list_names(lit("secrets"), namespace)
}

/// The arguments of `kubectl` that list the owners of all profiles.
pub fn all_kf_users_args(config: &Config) -> (r: Vec<String>)
    ensures
        args_are(
            r@,
            seq![
                "get"@,
                config.kubeflow.profile_resource@,
                "-A"@,
                "-o"@,
                "jsonpath={.items[*].spec.owner.name}"@,
            ],
        ),
{
    let mut r: Vec<String> = Vec::new();
    r.push(lit("get"));
    r.push(config.kubeflow.profile_resource.clone());
    r.push(lit("-A"));
    r.push(lit("-o"));
    r.push(lit("jsonpath={.items[*].spec.owner.name}"));
    r
}

/// The arguments of `kubectl` that print all profiles as JSON.
pub fn profiles_args(config: &Config) -> (r: Vec<String>)
    ensures
        args_are(
            r@,
            seq!["get"@, config.kubeflow.profile_resource@, "-A"@, "-o"@, "jsonpath={.items}"@],
        ),
{
    let mut r: Vec<String> = Vec::new();
    r.push(lit("get"));
    r.push(config.kubeflow.profile_resource.clone());
    r.push(lit("-A"));
    r.push(lit("-o"));
    r.push(lit("jsonpath={.items}"));
    r
}

/// The names that `kubectl` printed: the words of its output.
pub fn kf_names(output: &str) -> (r: Vec<String>)
    ensures
        r@.len() == words(output@).len(),
        forall|i: int| 0 <= i < r@.len() ==> #[trigger] r@[i]@ == words(output@)[i],
{
    split_words(output)
}

// ---------------------------------------------------------------------------
// Users and their namespaces
// ---------------------------------------------------------------------------

/// The profile `e` is owned by `user`.
pub open spec fn owned_by(e: Json, user: Seq<char>) -> bool {
    text_of(path3(e, "spec"@, "owner"@, "name"@)) == Some(user)
}

/// The name of the profile `e`, which is also the name of its namespace.
pub open spec fn profile_name(e: Json) -> Option<Seq<char>> {
    text_of(path2(e, "metadata"@, "name"@))
}

/// The profiles are a list, and each profile of `user` has a name.
pub open spec fn profiles_ok(profiles: Json, user: Seq<char>) -> bool {
    &&& profiles is Array
    &&& forall|i: int|
        0 <= i < profiles->Array_0@.len() && owned_by(#[trigger] profiles->Array_0@[i], user)
            ==> profile_name(profiles->Array_0@[i]) is Some
}

/// The namespace of `user`: the name of the first of the profiles that the
/// user owns, or the empty string where the user owns none.
pub open spec fn user_namespace(items: Seq<Json>, user: Seq<char>) -> Seq<char> {
    if exists|i: int| 0 <= i < items.len() && owned_by(#[trigger] items[i], user) {
        let i = choose|i: int|
            0 <= i < items.len() && owned_by(#[trigger] items[i], user) && forall|k: int|
                0 <= k < i ==> !owned_by(#[trigger] items[k], user);
        profile_name(items[i])->0
    } else {
        Seq::<char>::empty()
    }
}

/// The namespace of a user is the name of the first profile the user owns.
pub proof fn lemma_first_owned(items: Seq<Json>, user: Seq<char>, i: int)
    requires
        0 <= i < items.len(),
        owned_by(items[i], user),
        forall|k: int| 0 <= k < i ==> !owned_by(#[trigger] items[k], user),
    ensures
        user_namespace(items, user) == profile_name(items[i])->0,
{
    let c = choose|c: int|
        0 <= c < items.len() && owned_by(#[trigger] items[c], user) && forall|k: int|
            0 <= k < c ==> !owned_by(#[trigger] items[k], user);
    assert(0 <= i < items.len() && owned_by(items[i], user) && forall|k: int|
        0 <= k < i ==> !owned_by(#[trigger] items[k], user));
    if c < i {
        assert(!owned_by(items[c], user));
    } else if c > i {
        assert(!owned_by(items[i], user));
    }
}

/// The namespace of `user` among the profiles that the cluster printed.
pub fn kf_user_namespace(user: &str, profiles: &Json) -> (r: String)
    requires
        profiles_ok(*profiles, user@),
    ensures
        r@ == user_namespace(profiles->Array_0@, user@),
{
    let items = match profiles {
        Json::Array(items) => items,
        _ => {
            return String::new();
        },
    };
    let wanted = String::from_str(user);
    let mut i: usize = 0;
    while i < items.len()
        invariant
            i <= items@.len(),
            wanted@ == user@,
            *profiles == Json::Array(*items),
            profiles_ok(*profiles, user@),
            forall|k: int| 0 <= k < i ==> !owned_by(#[trigger] items@[k], user@),
        decreases items.len() - i,
    {
        let e = &items[i];
        let owner = crate::server::json::as_text(get_path3(e, "spec", "owner", "name"));
        let owns = match owner {
            Some(o) => *o == wanted,
            None => false,
        };
        proof {
            reveal_strlit("spec");
            reveal_strlit("owner");
            reveal_strlit("name");
        }
        assert(owns == owned_by(items@[i as int], user@));
        if owns {
            let name = crate::server::json::as_text(get_path2(e, "metadata", "name"));
            assert(profile_name(items@[i as int]) is Some);
            proof {
                lemma_first_owned(items@, user@, i as int);
            }
            return match name {
                Some(n) => n.clone(),
                None => String::new(),
            };
        }
        i = i + 1;
    }
    String::new()
}

/// Every user is found in the same profiles.
pub open spec fn all_profiles_ok(profiles: Json, users: Seq<Seq<char>>) -> bool {
    forall|i: int| 0 <= i < users.len() ==> profiles_ok(profiles, #[trigger] users[i])
}

/// The namespaces of all users (the words that listing the owners printed),
/// in the order of the users, each as [`kf_user_namespace`] finds it.
pub fn all_kf_users_namespaces(users_output: &str, profiles: &Json) -> (r: Vec<String>)
    requires
        all_profiles_ok(*profiles, words(users_output@)),
    ensures
        r@.len() == words(users_output@).len(),
        forall|i: int|
            0 <= i < r@.len() ==> #[trigger] r@[i]@ == user_namespace(
                profiles->Array_0@,
                words(users_output@)[i],
            ),
{
    let users = kf_names(users_output);
    let mut r: Vec<String> = Vec::new();
    let mut i: usize = 0;
    while i < users.len()
        invariant
            i <= users@.len(),
            r@.len() == i,
            users@.len() == words(users_output@).len(),
            forall|k: int| 0 <= k < users@.len() ==> #[trigger] users@[k]@ == words(users_output@)[k],
            all_profiles_ok(*profiles, words(users_output@)),
            forall|k: int|
                0 <= k < i ==> #[trigger] r@[k]@ == user_namespace(
                    profiles->Array_0@,
                    words(users_output@)[k],
                ),
        decreases users.len() - i,
    {
        assert(profiles_ok(*profiles, words(users_output@)[i as int]));
        let ns = kf_user_namespace(users[i].as_str(), profiles);
        r.push(ns);
        i = i + 1;
    }
    r
}

// ---------------------------------------------------------------------------
// The image that a notebook's pod runs
// ---------------------------------------------------------------------------

/// The arguments of `kubectl` that print the pods of a notebook as YAML.
pub fn pod_args(nb_id: &NotebookId) -> (r: Vec<String>)
    ensures
        args_are(
            r@,
            seq![
                "get"@,
                "po"@,
                "-n"@,
                nb_id@.namespace,
                "-l"@,
                "notebook-name="@ + nb_id@.name,
                "-o"@,
                "yaml"@,
            ],
        ),
{
    let mut r: Vec<String> = Vec::new();
    r.push(lit("get"));
    r.push(lit("po"));
    r.push(lit("-n"));
    r.push(nb_id.namespace.clone());
    r.push(lit("-l"));
    let mut sel = lit("notebook-name=");
    sel.append(nb_id.name.as_str());
    r.push(sel);
    r.push(lit("-o"));
    r.push(lit("yaml"));
    r
}

/// The `awk` program that keeps the `imageID` lines, except that of the
/// Istio proxy.
pub fn image_id_filter() -> (r: String)
    ensures
        r@ == "/imageID/ && !/istio\\/proxy/"@,
{
    lit("/imageID/ && !/istio\\/proxy/")
}

/// `\s`: a character with the Unicode `White_Space` property.
pub open spec fn is_space(c: char) -> bool {
    ||| '\u{9}' <= c && c <= '\u{d}'
    ||| c == ' ' || c == '\u{85}' || c == '\u{a0}' || c == '\u{1680}'
    ||| '\u{2000}' <= c && c <= '\u{200a}'
    ||| c == '\u{2028}' || c == '\u{2029}' || c == '\u{202f}' || c == '\u{205f}' || c == '\u{3000}'
}

/// `[a-f0-9]`
pub open spec fn is_lower_hex(c: char) -> bool {
    ('a' <= c && c <= 'f') || ('0' <= c && c <= '9')
}

/// `s` is `sha256:` followed by lower-case hexadecimal digits.
pub open spec fn is_sha256_digest(s: Seq<char>) -> bool {
    &&& has_prefix(s, "sha256:"@)
    &&& s.len() > "sha256:"@.len()
    &&& forall|i: int| "sha256:"@.len() <= i < s.len() ==> is_lower_hex(#[trigger] s[i])
}

/// `s` matches `^\s*imageID.*@(sha256:[a-f0-9]+)$` with `lead` spaces first
/// and the `@` at index `at` (`.` is any character but a line break).
pub open spec fn image_id_line(s: Seq<char>, lead: int, at: int) -> bool {
    &&& 0 <= lead && lead + 7 <= at < s.len()
    &&& forall|i: int| 0 <= i < lead ==> is_space(#[trigger] s[i])
    &&& s.subrange(lead, lead + 7) == "imageID"@
    &&& forall|i: int| lead + 7 <= i < at ==> #[trigger] s[i] != '\n'
    &&& s[at] == '@'
    &&& is_sha256_digest(s.skip(at + 1))
}

/// The digest that the output names: what follows the `@` where the whole
/// output is one `imageID` line, else the empty string.
pub open spec fn pod_image_digest_of(s: Seq<char>) -> Seq<char> {
    if exists|lead: int, at: int| image_id_line(s, lead, at) {
        let (lead, at) = choose|lead: int, at: int| image_id_line(s, lead, at);
        s.skip(at + 1)
    } else {
        Seq::<char>::empty()
    }
}

proof fn reveal_digest_literals()
    ensures
        "imageID"@ == seq!['i', 'm', 'a', 'g', 'e', 'I', 'D'],
        "sha256:"@ == seq!['s', 'h', 'a', '2', '5', '6', ':'],
{
    reveal_strlit("imageID");
    reveal_strlit("sha256:");
}

proof fn lemma_no_at_after(s: Seq<char>, l: int, a: int)
    requires
        image_id_line(s, l, a),
    ensures
        forall|i: int| a < i < s.len() ==> s[i] != '@',
{
    reveal_digest_literals();
    let d = s.skip(a + 1);
    assert forall|i: int| a < i < s.len() implies s[i] != '@' by {
        let k = i - a - 1;
        assert(d[k] == s[i]);
        if k < 7 {
            assert(d.take(7)[k] == d[k]);
        } else {
            assert(is_lower_hex(d[k]));
        }
    }
}

proof fn lemma_image_id_at_unique(s: Seq<char>, l1: int, a1: int, l2: int, a2: int)
    requires
        image_id_line(s, l1, a1),
        image_id_line(s, l2, a2),
    ensures
        a1 == a2,
{
    lemma_no_at_after(s, l1, a1);
    lemma_no_at_after(s, l2, a2);
}

fn no_line_break(s: &Vec<char>, from: usize, to: usize) -> (r: bool)
    requires
        from <= to <= s@.len(),
    ensures
        r == forall|i: int| from <= i < to ==> #[trigger] s@[i] != '\n',
{
    let mut j: usize = from;
    while j < to
        invariant
            from <= j <= to <= s@.len(),
            forall|i: int| from <= i < j ==> #[trigger] s@[i] != '\n',
        decreases to - j,
    {
        if s[j] == '\n' {
            return false;
        }
        j = j + 1;
    }
    true
}

fn space(c: char) -> (r: bool)
    ensures
        r == is_space(c),
{
    ('\u{9}' <= c && c <= '\u{d}') || c == ' ' || c == '\u{85}' || c == '\u{a0}' || c == '\u{1680}'
        || ('\u{2000}' <= c && c <= '\u{200a}') || c == '\u{2028}' || c == '\u{2029}' || c
        == '\u{202f}' || c == '\u{205f}' || c == '\u{3000}'
}

fn lower_hex_from(v: &Vec<char>, from: usize) -> (r: bool)
    requires
        from <= v@.len(),
    ensures
        r == forall|i: int| from <= i < v@.len() ==> is_lower_hex(#[trigger] v@[i]),
{
    let mut h: usize = from;
    while h < v.len()
        invariant
            from <= h <= v@.len(),
            forall|i: int| from <= i < h ==> is_lower_hex(#[trigger] v@[i]),
        decreases v.len() - h,
    {
        let c = v[h];
        if !(('a' <= c && c <= 'f') || ('0' <= c && c <= '9')) {
            return false;
        }
        h = h + 1;
    }
    true
}

/// The digest of the image that a notebook's pod runs, read from the
/// filtered output of `kubectl`: the `sha256:` digest after the `@` where the
/// output is a single `imageID` line, else the empty string.
pub fn pod_image_digest(output: &str) -> (r: String)
    ensures
        r@ == pod_image_digest_of(output@),
{
    proof {
        reveal_digest_literals();
    }
    let s = chars_of(output);
    let n = s.len();
    // The leading spaces.
    let mut lead: usize = 0;
    while lead < n && space(s[lead])
        invariant
            lead <= n == s@.len(),
            forall|i: int| 0 <= i < lead ==> is_space(#[trigger] s@[i]),
        decreases n - lead,
    {
        lead = lead + 1;
    }
    let ghost no_match = !exists|l: int, a: int| image_id_line(s@, l, a);
    // Any match starts its `imageID` right after the leading spaces.
    assert forall|l: int, a: int| image_id_line(s@, l, a) implies l == lead by {
        if l < lead {
            assert(s@.subrange(l, l + 7)[0] == s@[l]);
            assert(is_space(s@[l]));
        } else if l > lead {
            assert(is_space(s@[lead as int]));
        }
    }
    let image_id = chars_of("imageID");
    if !crate::text::matches_at(&s, &image_id, lead) {
        assert(!exists|l: int, a: int| image_id_line(s@, l, a));
        return String::new();
    }
    // The last `@`.
    let mut at: usize = n;
    let mut k: usize = n;
    while k > lead + 7
        invariant
            lead + 7 <= k <= n == s@.len(),
            at == n || (k <= at < n && s@[at as int] == '@'),
            at == n ==> forall|i: int| k <= i < n ==> s@[i] != '@',
            at < n ==> forall|i: int| at < i < n ==> s@[i] != '@',
        decreases k,
    {
        k = k - 1;
        if at == n && s[k] == '@' {
            at = k;
        }
    }
    if at == n {
        assert forall|l: int, a: int| !image_id_line(s@, l, a) by {
            if image_id_line(s@, l, a) {
                assert(l == lead);
                assert(s@[a] == '@');
            }
        }
        return String::new();
    }
    // No line break between `imageID` and the `@`.
    if !no_line_break(&s, lead + 7, at) {
        assert forall|l: int, a: int| !image_id_line(s@, l, a) by {
            if image_id_line(s@, l, a) {
                assert(l == lead);
                lemma_no_at_after(s@, l, a);
                if a > at {
                    assert(s@[a] != '@');
                }
            }
        }
        return String::new();
    }
    // The digest after the `@`.
    let digest = crate::text::suffix_chars(&s, at + 1);
    let sha = chars_of("sha256:");
    let ok = crate::text::starts_with(&digest, &sha) && digest.len() > 7 && lower_hex_from(&digest, 7);
    if ok {
        assert(image_id_line(s@, lead as int, at as int)) by {
            assert(s@.subrange(lead as int, lead + 7) =~= "imageID"@);
        }
        proof {
            let (l2, a2) = choose|l2: int, a2: int| image_id_line(s@, l2, a2);
            lemma_image_id_at_unique(s@, lead as int, at as int, l2, a2);
        }
        string_of_chars(&digest)
    } else {
        assert forall|l: int, a: int| !image_id_line(s@, l, a) by {
            if image_id_line(s@, l, a) {
                assert(l == lead);
                lemma_no_at_after(s@, l, a);
                if a > at {
                    assert(s@[a] != '@');
                } else {
                    assert(digest@ =~= s@.skip(a + 1));
                }
            }
        }
        String::new()
    }
}

// ---------------------------------------------------------------------------
// Restarting a notebook's pod
// ---------------------------------------------------------------------------

/// A change to a notebook resource: read a part of its spec, pass it
/// through `jq`, and merge the result back with `kubectl patch`.
pub struct NotebookPatch {
    /// The arguments of `kubectl` that read the part of the spec.
    pub get_args: Vec<String>,
    /// The arguments of each `jq` in the pipe, in order.
    pub jq_steps: Vec<Vec<String>>,
    /// The merge patch goes into the containers (else into the image pull secrets).
    pub containers: bool,
}

/// The arguments of `kubectl get` that read a part of a notebook's spec.
pub open spec fn spec_get_args(config: Config, nb_id: NotebookIdView, jsonpath: Seq<char>) -> Seq<
    Seq<char>,
> {
    seq![
        "get"@,
        config.kubeflow.notebook_resource@,
        nb_id.name,
        "-n"@,
        nb_id.namespace,
        "-o"@,
        "jsonpath="@ + jsonpath,
    ]
}

fn get_spec_args(config: &Config, nb_id: &NotebookId, jsonpath: &str) -> (r: Vec<String>)
    ensures
        args_are(r@, spec_get_args(*config, nb_id@, jsonpath@)),
{
    let mut r: Vec<String> = Vec::new();
    r.push(lit("get"));
    r.push(config.kubeflow.notebook_resource.clone());
    r.push(nb_id.name.clone());
    r.push(lit("-n"));
    r.push(nb_id.namespace.clone());
    r.push(lit("-o"));
    let mut p = lit("jsonpath=");
    p.append(jsonpath);
    r.push(p);
    r
}

/// The `jq` program that drops the secret from the image pull secrets, or
/// adds an empty list where there is none.
pub open spec fn drop_secret_filter(secret: Seq<char>) -> Seq<char> {
    "if .imagePullSecrets? then del(.imagePullSecrets[] | select(.name == \""@ + secret
        + "\")) else . + {\"imagePullSecrets\": []} end"@
}

/// The `jq` program that appends the secret to the image pull secrets of a
/// private registry, or keeps them as they are.
pub open spec fn add_secret_filter(is_private: bool, secret: Seq<char>) -> Seq<char> {
    if is_private {
        ".imagePullSecrets[.imagePullSecrets | length] |= . + {\"name\": \""@ + secret + "\"}"@
    } else {
        "."@
    }
}

fn two_args(a: String, b: String) -> (r: Vec<String>)
    ensures
        args_are(r@, seq![a@, b@]),
{
    let mut r: Vec<String> = Vec::new();
    r.push(a);
    r.push(b);
    r
}

/// Sets the image pull secrets of a notebook: without the secret, and with
/// it again at the end for a private registry.
pub fn patch_nb_image_pull_secret(
    nb_id: &NotebookId,
    is_private: bool,
    secret: &str,
    config: &Config,
) -> (r: NotebookPatch)
    ensures
        args_are(r.get_args@, spec_get_args(*config, nb_id@, "{.spec.template.spec}"@)),
        r.jq_steps@.len() == 3,
        args_are(r.jq_steps@[0]@, seq!["-rc"@, drop_secret_filter(secret@)]),
        args_are(r.jq_steps@[1]@, seq!["-rc"@, add_secret_filter(is_private, secret@)]),
        args_are(r.jq_steps@[2]@, seq![".imagePullSecrets"@]),
        !r.containers,
        is_private ==> r.jq_steps@[1]@[1]@ == ".imagePullSecrets[.imagePullSecrets | length] |= . + {\"name\": \""@
            + secret@ + "\"}"@,
        !is_private ==> r.jq_steps@[1]@[1]@ == "."@,
{
    let mut drop = lit("if .imagePullSecrets? then del(.imagePullSecrets[] | select(.name == \"");
    drop.append(secret);
    drop.append("\")) else . + {\"imagePullSecrets\": []} end");
    let add = if is_private {
        let mut a = lit(".imagePullSecrets[.imagePullSecrets | length] |= . + {\"name\": \"");
        a.append(secret);
        a.append("\"}");
        a
    } else {
        lit(".")
    };
    let mut steps: Vec<Vec<String>> = Vec::new();
    steps.push(two_args(lit("-rc"), drop));
    steps.push(two_args(lit("-rc"), add));
    let mut last: Vec<String> = Vec::new();
    last.push(lit(".imagePullSecrets"));
    steps.push(last);
    NotebookPatch {
        get_args: get_spec_args(config, nb_id, "{.spec.template.spec}"),
        jq_steps: steps,
        containers: false,
    }
}

fn container_patch(nb_id: &NotebookId, filter: String, config: &Config) -> (r: NotebookPatch)
    ensures
        args_are(r.get_args@, spec_get_args(*config, nb_id@, "{.spec.template.spec.containers[0]}"@)),
        r.jq_steps@.len() == 1,
        args_are(r.jq_steps@[0]@, seq!["-rc"@, filter@]),
        r.containers,
{
    let mut steps: Vec<Vec<String>> = Vec::new();
    steps.push(two_args(lit("-rc"), filter));
    NotebookPatch {
        get_args: get_spec_args(config, nb_id, "{.spec.template.spec.containers[0]}"),
        jq_steps: steps,
        containers: true,
    }
}

/// Sets the pull policy of a notebook's first container.
pub fn patch_nb_image_pull_policy(nb_id: &NotebookId, new_policy: &str, config: &Config) -> (r:
    NotebookPatch)
    ensures
        args_are(r.get_args@, spec_get_args(*config, nb_id@, "{.spec.template.spec.containers[0]}"@)),
        r.jq_steps@.len() == 1,
        args_are(r.jq_steps@[0]@, seq!["-rc"@, ".imagePullPolicy = \""@ + new_policy@ + "\""@]),
        r.containers,
{
    let mut f = lit(".imagePullPolicy = \"");
    f.append(new_policy);
    f.append("\"");
    container_patch(nb_id, f, config)
}

/// Sets the image of a notebook's first container.
pub fn patch_nb_image(nb_id: &NotebookId, new_image: &str, config: &Config) -> (r: NotebookPatch)
    ensures
        args_are(r.get_args@, spec_get_args(*config, nb_id@, "{.spec.template.spec.containers[0]}"@)),
        r.jq_steps@.len() == 1,
        args_are(r.jq_steps@[0]@, seq!["-rc"@, ".image = \""@ + new_image@ + "\""@]),
        r.containers,
{
    let mut f = lit(".image = \"");
    f.append(new_image);
    f.append("\"");
    container_patch(nb_id, f, config)
}

/// The merge patch that puts `content` (what `jq` printed) back.
pub open spec fn patch_body(containers: bool, content: Seq<char>) -> Seq<char> {
    if containers {
        "{\"spec\":{\"template\":{\"spec\":{\"containers\":["@ + content + "]}}}}"@
    } else {
        "{\"spec\":{\"template\":{\"spec\":{\"imagePullSecrets\":"@ + content + "}}}}"@
    }
}

/// The arguments of `kubectl patch` that merge `content` back into the
/// notebook.
pub fn patch_args(nb_id: &NotebookId, p: &NotebookPatch, content: &str, config: &Config) -> (r: Vec<
    String,
>)
    ensures
        args_are(
            r@,
            seq![
                "patch"@,
                config.kubeflow.notebook_resource@,
                nb_id@.name,
                "-n"@,
                nb_id@.namespace,
                "-p"@,
                patch_body(p.containers, content@),
                "--type=merge"@,
            ],
        ),
{
    let body = if p.containers {
        let mut b = lit("{\"spec\":{\"template\":{\"spec\":{\"containers\":[");
        b.append(content);
        b.append("]}}}}");
        b
    } else {
        let mut b = lit("{\"spec\":{\"template\":{\"spec\":{\"imagePullSecrets\":");
        b.append(content);
        b.append("}}}}");
        b
    };
    let mut r: Vec<String> = Vec::new();
    r.push(lit("patch"));
    r.push(config.kubeflow.notebook_resource.clone());
    r.push(nb_id.name.clone());
    r.push(lit("-n"));
    r.push(nb_id.namespace.clone());
    r.push(lit("-p"));
    r.push(body);
    r.push(lit("--type=merge"));
    r
}

/// How a notebook's pod is restarted on a new image.
pub struct PodRestart {
    /// The patches, applied in order: the pull secrets, the image, then the
    /// pull policy `Always`.
    pub patches: Vec<NotebookPatch>,
    /// The arguments of `kubectl` that delete the notebook's stateful set,
    /// which brings the pod back up on the patched spec.
    pub delete_args: Vec<String>,
}

/// The steps that restart a notebook's pod on `image`: set the pull secrets
/// for the registry, set the image, make the pod always pull it, and delete
/// the stateful set.
pub fn restart_nb_pod(
    nb_id: &NotebookId,
    is_private: bool,
    registry_credential_secret: &str,
    image: &str,
    config: &Config,
) -> (r: PodRestart)
    ensures
        r.patches@.len() == 3,
        !r.patches@[0].containers,
        args_are(r.patches@[0].get_args@, spec_get_args(*config, nb_id@, "{.spec.template.spec}"@)),
        r.patches@[0].jq_steps@.len() == 3,
        args_are(
            r.patches@[0].jq_steps@[0]@,
            seq!["-rc"@, drop_secret_filter(registry_credential_secret@)],
        ),
        args_are(
            r.patches@[0].jq_steps@[1]@,
            seq!["-rc"@, add_secret_filter(is_private, registry_credential_secret@)],
        ),
        args_are(r.patches@[0].jq_steps@[2]@, seq![".imagePullSecrets"@]),
        args_are(
            r.patches@[1].get_args@,
            spec_get_args(*config, nb_id@, "{.spec.template.spec.containers[0]}"@),
        ),
        r.patches@[1].jq_steps@.len() == 1,
        args_are(r.patches@[1].jq_steps@[0]@, seq!["-rc"@, ".image = \""@ + image@ + "\""@]),
        args_are(
            r.patches@[2].get_args@,
            spec_get_args(*config, nb_id@, "{.spec.template.spec.containers[0]}"@),
        ),
        r.patches@[2].jq_steps@.len() == 1,
        args_are(
            r.patches@[2].jq_steps@[0]@,
            seq!["-rc"@, ".imagePullPolicy = \""@ + "Always"@ + "\""@],
        ),
        r.patches@[1].containers && r.patches@[2].containers,
        args_are(
            r.delete_args@,
            seq!["delete"@, "statefulset"@, nb_id@.name, "-n"@, nb_id@.namespace],
        ),
{
    let mut patches: Vec<NotebookPatch> = Vec::new();
    patches.push(patch_nb_image_pull_secret(nb_id, is_private, registry_credential_secret, config));
    patches.push(patch_nb_image(nb_id, image, config));
    patches.push(patch_nb_image_pull_policy(nb_id, "Always", config));
    let mut d: Vec<String> = Vec::new();
    d.push(lit("delete"));
    d.push(lit("statefulset"));
    d.push(nb_id.name.clone());
    d.push(lit("-n"));
    d.push(nb_id.namespace.clone());
    PodRestart { patches, delete_args: d }
}

/// For a private registry the second `jq` program of the pull-secret patch
/// appends an entry named by the secret to the image pull secrets (the
/// program names the secret); for a public registry it is the identity `.`,
/// which leaves the list without the secret.
pub proof fn lemma_pull_secret_added_only_for_private(secret: Seq<char>)
    ensures
        add_secret_filter(true, secret) == ".imagePullSecrets[.imagePullSecrets | length] |= . + {\"name\": \""@
            + secret + "\"}"@,
        crate::text::contains_seq(add_secret_filter(true, secret), secret),
        add_secret_filter(false, secret) == "."@,
{
    let pre = ".imagePullSecrets[.imagePullSecrets | length] |= . + {\"name\": \""@;
    let f = add_secret_filter(true, secret);
    assert(f.subrange(pre.len() as int, (pre.len() + secret.len()) as int) =~= secret);
    assert(crate::text::occurs_at(f, secret, pre.len() as int));
}

/// A user who owns no profile has no namespace: the empty string.
pub proof fn lemma_no_profile_no_namespace(items: Seq<Json>, user: Seq<char>)
    requires
        forall|i: int| 0 <= i < items.len() ==> !owned_by(#[trigger] items[i], user),
    ensures
        user_namespace(items, user) == Seq::<char>::empty(),
{
}

} // verus!
