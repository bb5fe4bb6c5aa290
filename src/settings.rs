//! Connection settings handed to the registry transport.

use vstd::prelude::*;
use vstd::string::StringExecFns;

verus! {

/// The lowercase form of a string, as `str::to_lowercase` computes it.
pub uninterp spec fn lower_of(s: Seq<char>) -> Seq<char>;

/// Relies on `str::to_lowercase`: its result depends on the characters alone,
/// and the empty string stays empty.
#[verifier::external_body]
fn lowercase(s: &str) -> (r: String)
    ensures
        r@ == lower_of(s@),
        s@.len() == 0 ==> r@.len() == 0,
{
    s.to_lowercase()
}

/// The namespace the registry knows as its default, which the transport
/// expects to be written as the empty string.
pub open spec fn public_namespace() -> Seq<char> {
    "public"@
}

/// The namespace handed to the transport, given the namespace and its
/// lowercase form: empty where that form is `public`, else the namespace
/// itself.
pub open spec fn namespace_for(namespace: Seq<char>, lowered: Seq<char>) -> Seq<char> {
    if lowered == public_namespace() {
        Seq::empty()
    } else {
        namespace
    }
}

/// Whether a string is exactly `public`.
fn is_public(s: &String) -> (r: bool)
    ensures
        r == (s@ == public_namespace()),
{
    let p = String::from_str("public");
    *s == p
}

/// Rewrites the default namespace to the empty string, given the namespace
/// and its lowercase form; any other namespace is kept verbatim.
pub fn rewrite_namespace(namespace: String, lowered: &String) -> (r: String)
    ensures
        r@ == namespace_for(namespace@, lowered@),
{
    if is_public(lowered) {
        String::new()
    } else {
        namespace
    }
}

/// The namespace handed to the transport: empty where the namespace is
/// `public` in any letter case, else the namespace verbatim.
pub fn transport_namespace(namespace: String) -> (r: String)
    ensures
        r@ == namespace_for(namespace@, lower_of(namespace@)),
{
    let lowered = lowercase(namespace.as_str());
    rewrite_namespace(namespace, &lowered)
}

/// A credential counts only when it is given and not empty.
pub open spec fn present(c: Option<String>) -> bool {
    match c {
        Some(s) => s@.len() > 0,
        None => false,
    }
}

/// Whether a credential is given and not empty.
pub fn credential_present(c: &Option<String>) -> (r: bool)
    ensures
        r == present(*c),
{
    match c {
        Some(s) => !s.as_str().is_empty(),
        None => false,
    }
}

/// What the transport is built from: the server address, the namespace after
/// its rewrite, the application name, the credentials that count, and whether
/// HTTP-login authentication is switched on.
#[derive(Clone, Debug)]
pub struct ClientSettings {
    pub server_addr: String,
    pub namespace: String,
    pub app_name: String,
    pub username: Option<String>,
    pub password: Option<String>,
    pub http_login: bool,
}

/// A credential as the settings keep it: only when it counts.
pub open spec fn kept(c: Option<String>) -> Option<Seq<char>> {
    if present(c) {
        Some(c->0@)
    } else {
        None
    }
}

fn keep_credential(c: Option<String>) -> (r: Option<String>)
    ensures
        match r {
            Some(s) => kept(c) == Some(s@),
            None => kept(c) is None,
        },
{
    if credential_present(&c) {
        c
    } else {
        None
    }
}

impl ClientSettings {
    /// The settings for the given connection parameters. Authentication is
    /// on exactly when the user name or the password counts.
    pub fn new(
        server_addr: String,
        namespace: String,
        app_name: String,
        user_name: Option<String>,
        password: Option<String>,
    ) -> (r: ClientSettings)
        ensures
            r.server_addr@ == server_addr@,
            r.namespace@ == namespace_for(namespace@, lower_of(namespace@)),
            r.app_name@ == app_name@,
            r.http_login == (present(user_name) || present(password)),
            match r.username {
                Some(s) => kept(user_name) == Some(s@),
                None => kept(user_name) is None,
            },
            match r.password {
                Some(s) => kept(password) == Some(s@),
                None => kept(password) is None,
            },
    {
        let http_login = credential_present(&user_name) || credential_present(&password);
        ClientSettings {
            server_addr,
            namespace: transport_namespace(namespace),
            app_name,
            username: keep_credential(user_name),
            password: keep_credential(password),
            http_login,
        }
    }
}

/// The namespace rewrite: an empty result where the lowercase form is
/// `public`, and any other namespace, the empty one included, verbatim.
pub proof fn namespace_rewrite_law(namespace: Seq<char>, lowered: Seq<char>)
    ensures
        lowered == public_namespace() ==> namespace_for(namespace, lowered).len() == 0,
        lowered != public_namespace() ==> namespace_for(namespace, lowered) == namespace,
        namespace.len() == 0 ==> namespace_for(namespace, lowered) == namespace,
{
}

} // verus!
