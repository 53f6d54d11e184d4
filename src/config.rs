//! Service configuration and the endpoint resolver.
use vstd::prelude::*;
use vstd::string::*;

verus! {

/// Connection settings of one SuperTokens core instance.
pub struct SuperTokens {
    /// Application id, `"public"` by default.
    pub app_id: String,
    /// Tenant id, `"public"` by default.
    pub tenant_id: String,
    /// Base url of the core, without a trailing separator.
    pub core_domain: String,
    /// API key sent with every request.
    pub api_key: String,
    /// Protocol version sent with every request, `"4.0"` by default.
    pub cdi_version: String,
}

/// An endpoint path that may be appended after a separator: it does not
/// itself begin with one.
pub open spec fn is_relative_path(p: Seq<char>) -> bool {
    p.len() == 0 || p[0] != '/'
}

/// `{domain}/appid-{app}/{path}`.
pub open spec fn app_url(domain: Seq<char>, app: Seq<char>, path: Seq<char>) -> Seq<char> {
    domain + "/appid-"@ + app + "/"@ + path
}

/// `{domain}/appid-{app}/{tenant}/{path}`.
pub open spec fn tenant_url(
    domain: Seq<char>,
    app: Seq<char>,
    tenant: Seq<char>,
    path: Seq<char>,
) -> Seq<char> {
    domain + "/appid-"@ + app + "/"@ + tenant + "/"@ + path
}

/// For a path that does not begin with a separator, both url forms end with
/// the path after exactly one separator: no doubled separator is built.
pub proof fn lemma_single_separator_before_path(
    domain: Seq<char>,
    app: Seq<char>,
    tenant: Seq<char>,
    p: Seq<char>,
)
    requires
        is_relative_path(p),
    ensures
        ({
            let u = app_url(domain, app, p);
            &&& u.subrange(u.len() - p.len(), u.len() as int) == p
            &&& u[u.len() - p.len() - 1] == '/'
            &&& p.len() > 0 ==> u[u.len() - p.len()] != '/'
        }),
        ({
            let u = tenant_url(domain, app, tenant, p);
            &&& u.subrange(u.len() - p.len(), u.len() as int) == p
            &&& u[u.len() - p.len() - 1] == '/'
            &&& p.len() > 0 ==> u[u.len() - p.len()] != '/'
        }),
{
    reveal_strlit("/");
    let u = app_url(domain, app, p);
    let pre = domain + "/appid-"@ + app + "/"@;
    assert(u == pre + p);
    assert(u.subrange(u.len() - p.len(), u.len() as int) =~= p);
    assert(u[u.len() - p.len() - 1] == pre[pre.len() - 1]);
    let t = tenant_url(domain, app, tenant, p);
    let tpre = domain + "/appid-"@ + app + "/"@ + tenant + "/"@;
    assert(t == tpre + p);
    assert(t.subrange(t.len() - p.len(), t.len() as int) =~= p);
    assert(t[t.len() - p.len() - 1] == tpre[tpre.len() - 1]);
}

impl Default for SuperTokens {
    fn default() -> (r: Self)
        ensures
            r.app_id@ == "public"@,
            r.tenant_id@ == "public"@,
            r.core_domain@.len() == 0,
            r.api_key@.len() == 0,
            r.cdi_version@ == "4.0"@,
    {
        SuperTokens {
            app_id: String::from_str("public"),
            tenant_id: String::from_str("public"),
            core_domain: String::new(),
            api_key: String::new(),
            cdi_version: String::from_str("4.0"),
        }
    }
}

impl SuperTokens {
    /// Full url of an endpoint that is scoped to the application.
    pub fn get_url(&self, endpoint: &str) -> (r: String)
        requires
            is_relative_path(endpoint@),
        ensures
            r@ == app_url(self.core_domain@, self.app_id@, endpoint@),
    {
        let mut url = self.core_domain.clone();
        url.append("/appid-");
        url.append(self.app_id.as_str());
        url.append("/");
        url.append(endpoint);
        url
    }

    /// Full url of an endpoint that is scoped to the application and the tenant.
    pub fn get_url_with_tenant(&self, endpoint: &str) -> (r: String)
        requires
            is_relative_path(endpoint@),
        ensures
            r@ == tenant_url(self.core_domain@, self.app_id@, self.tenant_id@, endpoint@),
    {
        let mut url = self.core_domain.clone();
        url.append("/appid-");
        url.append(self.app_id.as_str());
        url.append("/");
        url.append(self.tenant_id.as_str());
        url.append("/");
        url.append(endpoint);
        url
    }
}

/// A recipe of the core: the feature module a request belongs to.
#[derive(Clone, Copy, Debug, PartialEq, Eq, Structural)]
pub enum Recipe {
    EmailPassword,
    PasswordLess,
    ThirdParty,
    Jwt,
}

/// The `rid` header value that names a recipe.
pub open spec fn rid_spec(r: Recipe) -> Seq<char> {
    match r {
        Recipe::EmailPassword => "emailpassword"@,
        Recipe::PasswordLess => "passwordless"@,
        Recipe::ThirdParty => "thirdparty"@,
        Recipe::Jwt => "jwt"@,
    }
}

impl Recipe {
    /// The recipe id sent in the `rid` header.
    pub fn rid(&self) -> (r: &'static str)
        ensures
            r@ == rid_spec(*self),
    {
        match self {
            Recipe::EmailPassword => "emailpassword",
            Recipe::PasswordLess => "passwordless",
            Recipe::ThirdParty => "thirdparty",
            Recipe::Jwt => "jwt",
        }
    }
}

} // verus!
