//! The discovery document: what the provider supports and where its
//! endpoints are.

use vstd::prelude::*;
use crate::iana::JsonWebSignatureAlg;
use crate::iana::OAuthAuthorizationEndpointResponseType;
use crate::iana::OAuthClientAuthenticationMethod;
use crate::iana::PkceCodeChallengeMethod;
use crate::iana::WireValue;
use crate::location::join;
use crate::location::url_join;
use crate::oidc::ClaimType;
use crate::oidc::Display;
use crate::oidc::GrantType;
use crate::oidc::ResponseMode;
use crate::oidc::SubjectType;

verus! {

/// Where the discovery document is served, below the provider's root.
pub const DISCOVERY_PATH: &'static str = ".well-known/openid-configuration";

/// The authorization endpoint, relative to the issuer.
pub const AUTHORIZATION_PATH: &'static str = "oauth2/authorize";

/// The token endpoint, relative to the issuer.
pub const TOKEN_PATH: &'static str = "oauth2/token";

/// The key set, relative to the issuer.
pub const JWKS_PATH: &'static str = "oauth2/keys.json";

/// The introspection endpoint, relative to the issuer.
pub const INTROSPECTION_PATH: &'static str = "oauth2/introspect";

/// The userinfo endpoint, relative to the issuer.
pub const USERINFO_PATH: &'static str = "oauth2/userinfo";

/// `s` without its repetitions: each value once, at the place where `s` has
/// it first.
pub open spec fn first_occurrences<T>(s: Seq<T>) -> Seq<T>
    decreases s.len(),
{
    if s.len() == 0 {
        Seq::empty()
    } else {
        let front = first_occurrences(s.drop_last());
        if front.contains(s.last()) {
            front
        } else {
            front.push(s.last())
        }
    }
}

/// `first_occurrences(s)` holds the values of `s` and no others, none of
/// them twice, and is `s` itself where `s` repeats nothing.
pub proof fn lemma_first_occurrences<T>(s: Seq<T>)
    ensures
        first_occurrences(s).no_duplicates(),
        forall|x: T| first_occurrences(s).contains(x) <==> s.contains(x),
        first_occurrences(s).len() <= s.len(),
        s.no_duplicates() ==> first_occurrences(s) == s,
    decreases s.len(),
{
    if s.len() > 0 {
        let front = s.drop_last();
        let kept = first_occurrences(front);
        let all = first_occurrences(s);
        lemma_first_occurrences(front);
        assert(all == if kept.contains(s.last()) {
            kept
        } else {
            kept.push(s.last())
        });
        assert forall|x: T| all.contains(x) <==> s.contains(x) by {
            if s.contains(x) {
                let k = choose|k: int| 0 <= k < s.len() && s[k] == x;
                if k < front.len() {
                    assert(front[k] == x);
                    assert(front.contains(x));
                    assert(kept.contains(x));
                    let j = choose|j: int| 0 <= j < kept.len() && kept[j] == x;
                    assert(all[j] == x);
                } else if !kept.contains(x) {
                    assert(all[kept.len() as int] == x);
                }
            }
            if all.contains(x) {
                let j = choose|j: int| 0 <= j < all.len() && all[j] == x;
                if j < kept.len() {
                    assert(kept[j] == x);
                    assert(kept.contains(x));
                    assert(front.contains(x));
                    let k = choose|k: int| 0 <= k < front.len() && front[k] == x;
                    assert(s[k] == x);
                } else {
                    assert(s[s.len() - 1] == x);
                }
            }
        }
        if s.no_duplicates() {
            assert(front.no_duplicates());
            if front.contains(s.last()) {
                let k = choose|k: int| 0 <= k < front.len() && front[k] == s.last();
                assert(s[k] == s[s.len() - 1]);
            }
            assert(all =~= s);
        }
    }
}

/// The relative locations of a provider's endpoints after they were resolved
/// against its issuer. One that could not be resolved is `None`.
#[derive(Clone, Debug, PartialEq, Eq)]
pub struct Endpoints {
    pub authorization: Option<String>,
    pub token: Option<String>,
    pub jwks: Option<String>,
    pub introspection: Option<String>,
    pub userinfo: Option<String>,
}

/// The mathematical content of [`Endpoints`].
pub struct EndpointLocations {
    pub authorization: Option<Seq<char>>,
    pub token: Option<Seq<char>>,
    pub jwks: Option<Seq<char>>,
    pub introspection: Option<Seq<char>>,
    pub userinfo: Option<Seq<char>>,
}

impl View for Endpoints {
    type V = EndpointLocations;

    open spec fn view(&self) -> EndpointLocations {
        EndpointLocations {
            authorization: self.authorization.deep_view(),
            token: self.token.deep_view(),
            jwks: self.jwks.deep_view(),
            introspection: self.introspection.deep_view(),
            userinfo: self.userinfo.deep_view(),
        }
    }
}

/// The endpoints of the provider whose issuer is written `issuer`: each fixed
/// relative path resolved against it.
pub open spec fn endpoints_of(issuer: Seq<char>) -> EndpointLocations {
    EndpointLocations {
        authorization: url_join(issuer, AUTHORIZATION_PATH@),
        token: url_join(issuer, TOKEN_PATH@),
        jwks: url_join(issuer, JWKS_PATH@),
        introspection: url_join(issuer, INTROSPECTION_PATH@),
        userinfo: url_join(issuer, USERINFO_PATH@),
    }
}

/// The discovery document as a mathematical value, field by field as it is
/// published. An endpoint that is `None` is left out of the document.
pub struct Document {
    pub issuer: Seq<char>,
    pub authorization_endpoint: Option<Seq<char>>,
    pub token_endpoint: Option<Seq<char>>,
    pub jwks_uri: Option<Seq<char>>,
    pub scopes_supported: Seq<Seq<char>>,
    pub response_types_supported: Seq<OAuthAuthorizationEndpointResponseType>,
    pub response_modes_supported: Seq<ResponseMode>,
    pub grant_types_supported: Seq<GrantType>,
    pub token_endpoint_auth_methods_supported: Seq<OAuthClientAuthenticationMethod>,
    pub token_endpoint_auth_signing_alg_values_supported: Seq<JsonWebSignatureAlg>,
    pub introspection_endpoint: Option<Seq<char>>,
    pub introspection_endpoint_auth_methods_supported: Seq<OAuthClientAuthenticationMethod>,
    pub introspection_endpoint_auth_signing_alg_values_supported: Seq<JsonWebSignatureAlg>,
    pub code_challenge_methods_supported: Seq<PkceCodeChallengeMethod>,
    pub userinfo_endpoint: Option<Seq<char>>,
    pub subject_types_supported: Seq<SubjectType>,
    pub id_token_signing_alg_values_supported: Seq<JsonWebSignatureAlg>,
    pub display_values_supported: Seq<Display>,
    pub claim_types_supported: Seq<ClaimType>,
    pub claims_supported: Seq<Seq<char>>,
    pub claims_parameter_supported: bool,
    pub request_parameter_supported: bool,
    pub request_uri_parameter_supported: bool,
}

/// The scopes that the provider grants.
pub open spec fn supported_scopes() -> Seq<Seq<char>> {
    seq!["openid"@]
}

/// The response types that the authorization endpoint answers.
pub open spec fn supported_response_types() -> Seq<OAuthAuthorizationEndpointResponseType> {
    seq![
        OAuthAuthorizationEndpointResponseType::Code,
        OAuthAuthorizationEndpointResponseType::Token,
        OAuthAuthorizationEndpointResponseType::IdToken,
        OAuthAuthorizationEndpointResponseType::CodeToken,
        OAuthAuthorizationEndpointResponseType::CodeIdToken,
        OAuthAuthorizationEndpointResponseType::IdTokenToken,
    ]
}

/// The response modes that the authorization endpoint answers in.
pub open spec fn supported_response_modes() -> Seq<ResponseMode> {
    seq![ResponseMode::FormPost, ResponseMode::Query, ResponseMode::Fragment]
}

/// The grants that the token endpoint takes.
pub open spec fn supported_grant_types() -> Seq<GrantType> {
    seq![GrantType::AuthorizationCode, GrantType::RefreshToken]
}

/// How clients can authenticate, at every endpoint that authenticates them.
pub open spec fn supported_client_auth_methods() -> Seq<OAuthClientAuthenticationMethod> {
    seq![
        OAuthClientAuthenticationMethod::ClientSecretBasic,
        OAuthClientAuthenticationMethod::ClientSecretPost,
        OAuthClientAuthenticationMethod::ClientSecretJwt,
        OAuthClientAuthenticationMethod::PrivateKeyJwt,
        OAuthClientAuthenticationMethod::NoAuthentication,
    ]
}

/// The algorithms that clients can sign their authentication with.
pub open spec fn supported_client_auth_signing_algs() -> Seq<JsonWebSignatureAlg> {
    seq![
        JsonWebSignatureAlg::Hs256,
        JsonWebSignatureAlg::Hs384,
        JsonWebSignatureAlg::Hs512,
        JsonWebSignatureAlg::Rs256,
        JsonWebSignatureAlg::Rs384,
        JsonWebSignatureAlg::Rs512,
    ]
}

/// The code challenge methods that the provider takes.
pub open spec fn supported_code_challenge_methods() -> Seq<PkceCodeChallengeMethod> {
    seq![PkceCodeChallengeMethod::Plain, PkceCodeChallengeMethod::S256]
}

/// The subject types that the provider issues.
pub open spec fn supported_subject_types() -> Seq<SubjectType> {
    seq![SubjectType::Public]
}

/// The display values that the provider honours.
pub open spec fn supported_display_values() -> Seq<Display> {
    seq![Display::Page]
}

/// The claim types that the provider issues.
pub open spec fn supported_claim_types() -> Seq<ClaimType> {
    seq![ClaimType::Normal]
}

/// The claims that the provider may put in its tokens.
pub open spec fn supported_claims() -> Seq<Seq<char>> {
    seq![
        "iss"@,
        "sub"@,
        "aud"@,
        "iat"@,
        "exp"@,
        "nonce"@,
        "auth_time"@,
        "at_hash"@,
        "c_hash"@,
    ]
}

/// The document of the provider with this issuer, these endpoints and these
/// algorithms to sign ID tokens with. Everything else in it is fixed.
pub open spec fn document_for(
    issuer: Seq<char>,
    endpoints: EndpointLocations,
    signing_algs: Seq<JsonWebSignatureAlg>,
) -> Document {
    Document {
        issuer,
        authorization_endpoint: endpoints.authorization,
        token_endpoint: endpoints.token,
        jwks_uri: endpoints.jwks,
        scopes_supported: supported_scopes(),
        response_types_supported: supported_response_types(),
        response_modes_supported: supported_response_modes(),
        grant_types_supported: supported_grant_types(),
        token_endpoint_auth_methods_supported: supported_client_auth_methods(),
        token_endpoint_auth_signing_alg_values_supported: supported_client_auth_signing_algs(),
        introspection_endpoint: endpoints.introspection,
        introspection_endpoint_auth_methods_supported: supported_client_auth_methods(),
        introspection_endpoint_auth_signing_alg_values_supported:
            supported_client_auth_signing_algs(),
        code_challenge_methods_supported: supported_code_challenge_methods(),
        userinfo_endpoint: endpoints.userinfo,
        subject_types_supported: supported_subject_types(),
        id_token_signing_alg_values_supported: first_occurrences(signing_algs),
        display_values_supported: supported_display_values(),
        claim_types_supported: supported_claim_types(),
        claims_supported: supported_claims(),
        claims_parameter_supported: false,
        request_parameter_supported: false,
        request_uri_parameter_supported: false,
    }
}

impl Document {
    /// The lists of the document are sets: none holds a value twice.
    pub open spec fn lists_are_sets(self) -> bool {
        &&& self.scopes_supported.no_duplicates()
        &&& self.response_types_supported.no_duplicates()
        &&& self.response_modes_supported.no_duplicates()
        &&& self.grant_types_supported.no_duplicates()
        &&& self.token_endpoint_auth_methods_supported.no_duplicates()
        &&& self.token_endpoint_auth_signing_alg_values_supported.no_duplicates()
        &&& self.introspection_endpoint_auth_methods_supported.no_duplicates()
        &&& self.introspection_endpoint_auth_signing_alg_values_supported.no_duplicates()
        &&& self.code_challenge_methods_supported.no_duplicates()
        &&& self.subject_types_supported.no_duplicates()
        &&& self.id_token_signing_alg_values_supported.no_duplicates()
        &&& self.display_values_supported.no_duplicates()
        &&& self.claim_types_supported.no_duplicates()
        &&& self.claims_supported.no_duplicates()
    }

    /// Clients authenticate alike at the token endpoint and at the
    /// introspection endpoint.
    pub open spec fn client_auth_is_uniform(self) -> bool {
        &&& self.token_endpoint_auth_methods_supported
            == self.introspection_endpoint_auth_methods_supported
        &&& self.token_endpoint_auth_signing_alg_values_supported
            == self.introspection_endpoint_auth_signing_alg_values_supported
    }
}

/// What a field of the published document holds.
#[derive(Clone, Debug, PartialEq, Eq)]
pub enum FieldValue {
    Text(String),
    List(Vec<String>),
    Flag(bool),
}

/// The mathematical content of a [`FieldValue`].
pub enum ValueView {
    Text(Seq<char>),
    List(Seq<Seq<char>>),
    Flag(bool),
}

impl View for FieldValue {
    type V = ValueView;

    open spec fn view(&self) -> ValueView {
        match self {
            FieldValue::Text(text) => ValueView::Text(text@),
            FieldValue::List(items) => ValueView::List(items.deep_view()),
            FieldValue::Flag(flag) => ValueView::Flag(*flag),
        }
    }
}

/// A field of the published document: its name and what it holds.
#[derive(Clone, Debug, PartialEq, Eq)]
pub struct Field {
    pub name: &'static str,
    pub value: FieldValue,
}

/// The mathematical content of a [`Field`].
pub struct FieldView {
    pub name: Seq<char>,
    pub value: ValueView,
}

impl View for Field {
    type V = FieldView;

    open spec fn view(&self) -> FieldView {
        FieldView { name: self.name@, value: self.value@ }
    }
}

/// The mathematical content of a list of fields.
pub open spec fn fields_view(fields: Seq<Field>) -> Seq<FieldView> {
    fields.map_values(|field: Field| field@)
}

/// The names of `values`, in their order.
pub open spec fn names_of<T: WireValue>(values: Seq<T>) -> Seq<Seq<char>> {
    values.map_values(|value: T| value.name())
}

/// `fields` followed by the field of an endpoint. An endpoint that the
/// document does not have gets no field.
pub open spec fn with_endpoint(
    fields: Seq<FieldView>,
    name: Seq<char>,
    endpoint: Option<Seq<char>>,
) -> Seq<FieldView> {
    match endpoint {
        Some(location) => fields.push(FieldView { name, value: ValueView::Text(location) }),
        None => fields,
    }
}

impl Document {
    /// The number of endpoints that the document has.
    pub open spec fn endpoint_count(self) -> nat {
        let count = |endpoint: Option<Seq<char>>| -> nat { if endpoint is Some { 1 } else { 0 } };
        count(self.authorization_endpoint) + count(self.token_endpoint) + count(self.jwks_uri)
            + count(self.userinfo_endpoint) + count(self.introspection_endpoint)
    }

    /// The document as it is published: its fields in their order, each
    /// with its name. An endpoint that the document does not have is left
    /// out, and a value is written by its name.
    pub open spec fn fields(self) -> Seq<FieldView> {
        let fields = seq![FieldView { name: "issuer"@, value: ValueView::Text(self.issuer) }];
        let fields = with_endpoint(fields, "authorization_endpoint"@, self.authorization_endpoint);
        let fields = with_endpoint(fields, "token_endpoint"@, self.token_endpoint);
        let fields = with_endpoint(fields, "jwks_uri"@, self.jwks_uri);
        let fields = with_endpoint(fields, "userinfo_endpoint"@, self.userinfo_endpoint);
        let fields = with_endpoint(fields, "introspection_endpoint"@, self.introspection_endpoint);
        let fields = fields.push(FieldView { name: "scopes_supported"@, value: ValueView::List(self.scopes_supported) });
        let fields = fields.push(FieldView { name: "response_types_supported"@, value: ValueView::List(names_of(self.response_types_supported)) });
        let fields = fields.push(FieldView { name: "response_modes_supported"@, value: ValueView::List(names_of(self.response_modes_supported)) });
        let fields = fields.push(FieldView { name: "grant_types_supported"@, value: ValueView::List(names_of(self.grant_types_supported)) });
        let fields = fields.push(FieldView { name: "token_endpoint_auth_methods_supported"@, value: ValueView::List(names_of(self.token_endpoint_auth_methods_supported)) });
        let fields = fields.push(FieldView { name: "token_endpoint_auth_signing_alg_values_supported"@, value: ValueView::List(names_of(self.token_endpoint_auth_signing_alg_values_supported)) });
        let fields = fields.push(FieldView { name: "introspection_endpoint_auth_methods_supported"@, value: ValueView::List(names_of(self.introspection_endpoint_auth_methods_supported)) });
        let fields = fields.push(FieldView { name: "introspection_endpoint_auth_signing_alg_values_supported"@, value: ValueView::List(names_of(self.introspection_endpoint_auth_signing_alg_values_supported)) });
        let fields = fields.push(FieldView { name: "code_challenge_methods_supported"@, value: ValueView::List(names_of(self.code_challenge_methods_supported)) });
        let fields = fields.push(FieldView { name: "subject_types_supported"@, value: ValueView::List(names_of(self.subject_types_supported)) });
        let fields = fields.push(FieldView { name: "id_token_signing_alg_values_supported"@, value: ValueView::List(names_of(self.id_token_signing_alg_values_supported)) });
        let fields = fields.push(FieldView { name: "display_values_supported"@, value: ValueView::List(names_of(self.display_values_supported)) });
        let fields = fields.push(FieldView { name: "claim_types_supported"@, value: ValueView::List(names_of(self.claim_types_supported)) });
        let fields = fields.push(FieldView { name: "claims_supported"@, value: ValueView::List(self.claims_supported) });
        let fields = fields.push(FieldView { name: "claims_parameter_supported"@, value: ValueView::Flag(self.claims_parameter_supported) });
        let fields = fields.push(FieldView { name: "request_parameter_supported"@, value: ValueView::Flag(self.request_parameter_supported) });
        let fields = fields.push(FieldView { name: "request_uri_parameter_supported"@, value: ValueView::Flag(self.request_uri_parameter_supported) });
        fields
    }
}

/// The published document has a field for the issuer, one for each endpoint
/// that the document has, and seventeen more.
pub proof fn lemma_missing_endpoints_are_left_out(document: Document)
    ensures
        document.fields().len() == 18 + document.endpoint_count(),
        document.fields()[0] == (FieldView {
            name: "issuer"@,
            value: ValueView::Text(document.issuer),
        }),
{
}

/// Every document that can be assembled is well formed: its lists are sets,
/// and clients authenticate alike at the token and introspection endpoints.
pub proof fn lemma_document_well_formed(
    issuer: Seq<char>,
    endpoints: EndpointLocations,
    signing_algs: Seq<JsonWebSignatureAlg>,
)
    ensures
        document_for(issuer, endpoints, signing_algs).lists_are_sets(),
        document_for(issuer, endpoints, signing_algs).client_auth_is_uniform(),
{
    lemma_first_occurrences(signing_algs);
    reveal_strlit("iss");
    reveal_strlit("sub");
    reveal_strlit("aud");
    reveal_strlit("iat");
    reveal_strlit("exp");
    reveal_strlit("nonce");
    reveal_strlit("auth_time");
    reveal_strlit("at_hash");
    reveal_strlit("c_hash");
    let claims = supported_claims();
    assert forall|i: int, j: int| 0 <= i < claims.len() && 0 <= j < claims.len() && i != j implies claims[i]
        != claims[j] by {
        if claims[i].len() == claims[j].len() {
            assert(claims[i][0] != claims[j][0] || claims[i][1] != claims[j][1]);
        }
    }
}

/// The discovery document of a provider. It is assembled once and never
/// changed; what clients may authenticate with is held once and published
/// for each endpoint that authenticates them.
#[derive(Clone, Debug, PartialEq, Eq)]
pub struct ProviderMetadata {
    issuer: String,
    endpoints: Endpoints,
    scopes: Vec<String>,
    response_types: Vec<OAuthAuthorizationEndpointResponseType>,
    response_modes: Vec<ResponseMode>,
    grant_types: Vec<GrantType>,
    client_auth_methods: Vec<OAuthClientAuthenticationMethod>,
    client_auth_signing_algs: Vec<JsonWebSignatureAlg>,
    code_challenge_methods: Vec<PkceCodeChallengeMethod>,
    subject_types: Vec<SubjectType>,
    id_token_signing_algs: Vec<JsonWebSignatureAlg>,
    display_values: Vec<Display>,
    claim_types: Vec<ClaimType>,
    claims: Vec<String>,
    claims_parameter: bool,
    request_parameter: bool,
    request_uri_parameter: bool,
}

impl View for ProviderMetadata {
    type V = Document;

    closed spec fn view(&self) -> Document {
        Document {
            issuer: self.issuer@,
            authorization_endpoint: self.endpoints@.authorization,
            token_endpoint: self.endpoints@.token,
            jwks_uri: self.endpoints@.jwks,
            scopes_supported: self.scopes.deep_view(),
            response_types_supported: self.response_types@,
            response_modes_supported: self.response_modes@,
            grant_types_supported: self.grant_types@,
            token_endpoint_auth_methods_supported: self.client_auth_methods@,
            token_endpoint_auth_signing_alg_values_supported: self.client_auth_signing_algs@,
            introspection_endpoint: self.endpoints@.introspection,
            introspection_endpoint_auth_methods_supported: self.client_auth_methods@,
            introspection_endpoint_auth_signing_alg_values_supported:
                self.client_auth_signing_algs@,
            code_challenge_methods_supported: self.code_challenge_methods@,
            userinfo_endpoint: self.endpoints@.userinfo,
            subject_types_supported: self.subject_types@,
            id_token_signing_alg_values_supported: self.id_token_signing_algs@,
            display_values_supported: self.display_values@,
            claim_types_supported: self.claim_types@,
            claims_supported: self.claims.deep_view(),
            claims_parameter_supported: self.claims_parameter,
            request_parameter_supported: self.request_parameter,
            request_uri_parameter_supported: self.request_uri_parameter,
        }
    }
}

/// Whatever a provider's document holds, it names the same ways for clients
/// to authenticate at the token endpoint and at the introspection endpoint.
pub proof fn lemma_client_auth_single_source(metadata: ProviderMetadata)
    ensures
        metadata@.client_auth_is_uniform(),
{
}

/// Two documents assembled for the same issuer and the same signing
/// algorithms are the same document, and are published field for field
/// alike.
pub proof fn lemma_discovery_is_stable(
    issuer: Seq<char>,
    signing_algs: Seq<JsonWebSignatureAlg>,
    first: ProviderMetadata,
    second: ProviderMetadata,
)
    requires
        first@ == document_for(issuer, endpoints_of(issuer), signing_algs),
        second@ == document_for(issuer, endpoints_of(issuer), signing_algs),
    ensures
        first@ == second@,
        first@.fields() == second@.fields(),
{
}

/// Tells whether `algs` holds `wanted`.
fn holds_algorithm(algs: &Vec<JsonWebSignatureAlg>, wanted: JsonWebSignatureAlg) -> (r: bool)
    ensures
        r == algs@.contains(wanted),
{
    let mut i: usize = 0;
    while i < algs.len()
        invariant
            i <= algs.len(),
            forall|j: int| 0 <= j < i ==> algs[j] != wanted,
        decreases algs.len() - i,
    {
        if algs[i] == wanted {
            return true;
        }
        i += 1;
    }
    false
}

/// The algorithms of `algs`, each once, in the order in which `algs` has
/// them first.
pub fn distinct_algorithms(algs: &[JsonWebSignatureAlg]) -> (out: Vec<JsonWebSignatureAlg>)
    ensures
        out@ == first_occurrences(algs@),
{
    let mut out: Vec<JsonWebSignatureAlg> = Vec::new();
    let mut i: usize = 0;
    while i < algs.len()
        invariant
            i <= algs.len(),
            out@ == first_occurrences(algs@.take(i as int)),
        decreases algs.len() - i,
    {
        let alg = algs[i];
        proof {
            let next = algs@.take(i + 1);
            assert(next.drop_last() =~= algs@.take(i as int));
            assert(next.last() == alg);
        }
        if !holds_algorithm(&out, alg) {
            out.push(alg);
        }
        i += 1;
    }
    assert(algs@.take(algs@.len() as int) =~= algs@);
    out
}

/// Resolves the fixed relative path of each endpoint against `issuer`. An
/// endpoint that cannot be resolved is left out.
pub fn resolve_endpoints(issuer: &str) -> (endpoints: Endpoints)
    ensures
        endpoints@ == endpoints_of(issuer@),
{
    Endpoints {
        authorization: join(issuer, AUTHORIZATION_PATH),
        token: join(issuer, TOKEN_PATH),
        jwks: join(issuer, JWKS_PATH),
        introspection: join(issuer, INTROSPECTION_PATH),
        userinfo: join(issuer, USERINFO_PATH),
    }
}

fn scopes() -> (v: Vec<String>)
    ensures
        v.deep_view() == supported_scopes(),
{
    let v = vec!["openid".to_owned()];
    assert(v.deep_view() =~= supported_scopes());
    v
}

fn claims() -> (v: Vec<String>)
    ensures
        v.deep_view() == supported_claims(),
{
    let v = vec![
        "iss".to_owned(),
        "sub".to_owned(),
        "aud".to_owned(),
        "iat".to_owned(),
        "exp".to_owned(),
        "nonce".to_owned(),
        "auth_time".to_owned(),
        "at_hash".to_owned(),
        "c_hash".to_owned(),
    ];
    assert(v.deep_view() =~= supported_claims());
    v
}

fn names<T: WireValue>(values: &Vec<T>) -> (r: Vec<String>)
    ensures
        r.deep_view() == names_of(values@),
{
    let mut out: Vec<String> = Vec::new();
    let mut i: usize = 0;
    while i < values.len()
        invariant
            i <= values.len(),
            out.deep_view() == names_of(values@.take(i as int)),
        decreases values.len() - i,
    {
        let ghost before = out.deep_view();
        let name = values[i].as_str().to_owned();
        out.push(name);
        assert(out.deep_view() =~= before.push(values[i as int].name()));
        assert(names_of(values@.take(i + 1)) =~= before.push(values[i as int].name()));
        i += 1;
    }
    assert(values@.take(values@.len() as int) =~= values@);
    out
}

fn copy_strings(values: &Vec<String>) -> (r: Vec<String>)
    ensures
        r.deep_view() == values.deep_view(),
{
    let mut out: Vec<String> = Vec::new();
    let mut i: usize = 0;
    while i < values.len()
        invariant
            i <= values.len(),
            out.deep_view() == values.deep_view().take(i as int),
        decreases values.len() - i,
    {
        let ghost before = out.deep_view();
        let value = values[i].clone();
        out.push(value);
        assert(out.deep_view() =~= before.push(values[i as int]@));
        assert(values.deep_view().take(i + 1) =~= before.push(values[i as int]@));
        i += 1;
    }
    assert(values.deep_view().take(values.len() as int) =~= values.deep_view());
    out
}

fn put(fields: &mut Vec<Field>, name: &'static str, value: FieldValue)
    ensures
        fields_view(final(fields)@) == fields_view(old(fields)@).push(
            FieldView { name: name@, value: value@ },
        ),
{
    fields.push(Field { name, value });
    assert(fields_view(fields@) =~= fields_view(old(fields)@).push(
        FieldView { name: name@, value: value@ },
    ));
}

fn put_endpoint(fields: &mut Vec<Field>, name: &'static str, endpoint: &Option<String>)
    ensures
        fields_view(final(fields)@) == with_endpoint(
            fields_view(old(fields)@),
            name@,
            endpoint.deep_view(),
        ),
{
    match endpoint {
        Some(location) => put(fields, name, FieldValue::Text(location.clone())),
        None => {},
    }
}

impl ProviderMetadata {
    /// Assembles the document of the provider called `issuer` from its
    /// resolved endpoints and the algorithms that it can sign ID tokens with.
    /// An algorithm named more than once is published once.
    pub fn assemble(
        issuer: String,
        endpoints: Endpoints,
        supported_signing_algorithms: &[JsonWebSignatureAlg],
    ) -> (metadata: ProviderMetadata)
        ensures
            metadata@ == document_for(issuer@, endpoints@, supported_signing_algorithms@),
            metadata@.lists_are_sets(),
            metadata@.client_auth_is_uniform(),
    {
        let response_types = vec![
            OAuthAuthorizationEndpointResponseType::Code,
            OAuthAuthorizationEndpointResponseType::Token,
            OAuthAuthorizationEndpointResponseType::IdToken,
            OAuthAuthorizationEndpointResponseType::CodeToken,
            OAuthAuthorizationEndpointResponseType::CodeIdToken,
            OAuthAuthorizationEndpointResponseType::IdTokenToken,
        ];
        let response_modes = vec![ResponseMode::FormPost, ResponseMode::Query, ResponseMode::Fragment];
        let grant_types = vec![GrantType::AuthorizationCode, GrantType::RefreshToken];
        let client_auth_methods = vec![
            OAuthClientAuthenticationMethod::ClientSecretBasic,
            OAuthClientAuthenticationMethod::ClientSecretPost,
            OAuthClientAuthenticationMethod::ClientSecretJwt,
            OAuthClientAuthenticationMethod::PrivateKeyJwt,
            OAuthClientAuthenticationMethod::NoAuthentication,
        ];
        let client_auth_signing_algs = vec![
            JsonWebSignatureAlg::Hs256,
            JsonWebSignatureAlg::Hs384,
            JsonWebSignatureAlg::Hs512,
            JsonWebSignatureAlg::Rs256,
            JsonWebSignatureAlg::Rs384,
            JsonWebSignatureAlg::Rs512,
        ];
        let code_challenge_methods = vec![PkceCodeChallengeMethod::Plain, PkceCodeChallengeMethod::S256];
        let subject_types = vec![SubjectType::Public];
        let display_values = vec![Display::Page];
        let claim_types = vec![ClaimType::Normal];
        proof {
            lemma_document_well_formed(issuer@, endpoints@, supported_signing_algorithms@);
            assert(response_types@ =~= supported_response_types());
            assert(response_modes@ =~= supported_response_modes());
            assert(grant_types@ =~= supported_grant_types());
            assert(client_auth_methods@ =~= supported_client_auth_methods());
            assert(client_auth_signing_algs@ =~= supported_client_auth_signing_algs());
            assert(code_challenge_methods@ =~= supported_code_challenge_methods());
            assert(subject_types@ =~= supported_subject_types());
            assert(display_values@ =~= supported_display_values());
            assert(claim_types@ =~= supported_claim_types());
        }
        ProviderMetadata {
            issuer,
            endpoints,
            scopes: scopes(),
            response_types,
            response_modes,
            grant_types,
            client_auth_methods,
            client_auth_signing_algs,
            code_challenge_methods,
            subject_types,
            id_token_signing_algs: distinct_algorithms(supported_signing_algorithms),
            display_values,
            claim_types,
            claims: claims(),
            claims_parameter: false,
            request_parameter: false,
            request_uri_parameter: false,
        }
    }

    /// The provider's issuer identifier.
    pub fn issuer(&self) -> (r: &str)
        ensures
            r@ == self@.issuer,
    {
        self.issuer.as_str()
    }

    /// Where clients send the user to be authorized, if the document has it.
    pub fn authorization_endpoint(&self) -> (r: &Option<String>)
        ensures
            r.deep_view() == self@.authorization_endpoint,
    {
        &self.endpoints.authorization
    }

    /// Where clients obtain tokens, if the document has it.
    pub fn token_endpoint(&self) -> (r: &Option<String>)
        ensures
            r.deep_view() == self@.token_endpoint,
    {
        &self.endpoints.token
    }

    /// Where the provider's keys are published, if the document has it.
    pub fn jwks_uri(&self) -> (r: &Option<String>)
        ensures
            r.deep_view() == self@.jwks_uri,
    {
        &self.endpoints.jwks
    }

    /// Where tokens can be looked into, if the document has it.
    pub fn introspection_endpoint(&self) -> (r: &Option<String>)
        ensures
            r.deep_view() == self@.introspection_endpoint,
    {
        &self.endpoints.introspection
    }

    /// Where claims about the user are served, if the document has it.
    pub fn userinfo_endpoint(&self) -> (r: &Option<String>)
        ensures
            r.deep_view() == self@.userinfo_endpoint,
    {
        &self.endpoints.userinfo
    }

    /// The scopes that the provider grants.
    pub fn scopes_supported(&self) -> (r: &Vec<String>)
        ensures
            r.deep_view() == self@.scopes_supported,
    {
        &self.scopes
    }

    /// The response types of the authorization endpoint.
    pub fn response_types_supported(&self) -> (r: &Vec<OAuthAuthorizationEndpointResponseType>)
        ensures
            r@ == self@.response_types_supported,
    {
        &self.response_types
    }

    /// The response modes of the authorization endpoint.
    pub fn response_modes_supported(&self) -> (r: &Vec<ResponseMode>)
        ensures
            r@ == self@.response_modes_supported,
    {
        &self.response_modes
    }

    /// The grants that the token endpoint takes.
    pub fn grant_types_supported(&self) -> (r: &Vec<GrantType>)
        ensures
            r@ == self@.grant_types_supported,
    {
        &self.grant_types
    }

    /// How clients can authenticate at the token endpoint.
    pub fn token_endpoint_auth_methods_supported(&self) -> (r: &Vec<OAuthClientAuthenticationMethod>)
        ensures
            r@ == self@.token_endpoint_auth_methods_supported,
    {
        &self.client_auth_methods
    }

    /// The algorithms that clients can sign with at the token endpoint.
    pub fn token_endpoint_auth_signing_alg_values_supported(&self) -> (r: &Vec<JsonWebSignatureAlg>)
        ensures
            r@ == self@.token_endpoint_auth_signing_alg_values_supported,
    {
        &self.client_auth_signing_algs
    }

    /// How clients can authenticate at the introspection endpoint.
    pub fn introspection_endpoint_auth_methods_supported(&self) -> (r: &Vec<OAuthClientAuthenticationMethod>)
        ensures
            r@ == self@.introspection_endpoint_auth_methods_supported,
    {
        &self.client_auth_methods
    }

    /// The algorithms that clients can sign with at the introspection endpoint.
    pub fn introspection_endpoint_auth_signing_alg_values_supported(&self) -> (r: &Vec<JsonWebSignatureAlg>)
        ensures
            r@ == self@.introspection_endpoint_auth_signing_alg_values_supported,
    {
        &self.client_auth_signing_algs
    }

    /// The code challenge methods that the provider takes.
    pub fn code_challenge_methods_supported(&self) -> (r: &Vec<PkceCodeChallengeMethod>)
        ensures
            r@ == self@.code_challenge_methods_supported,
    {
        &self.code_challenge_methods
    }

    /// The subject types that the provider issues.
    pub fn subject_types_supported(&self) -> (r: &Vec<SubjectType>)
        ensures
            r@ == self@.subject_types_supported,
    {
        &self.subject_types
    }

    /// The algorithms that the provider can sign ID tokens with.
    pub fn id_token_signing_alg_values_supported(&self) -> (r: &Vec<JsonWebSignatureAlg>)
        ensures
            r@ == self@.id_token_signing_alg_values_supported,
    {
        &self.id_token_signing_algs
    }

    /// The display values that the provider honours.
    pub fn display_values_supported(&self) -> (r: &Vec<Display>)
        ensures
            r@ == self@.display_values_supported,
    {
        &self.display_values
    }

    /// The claim types that the provider issues.
    pub fn claim_types_supported(&self) -> (r: &Vec<ClaimType>)
        ensures
            r@ == self@.claim_types_supported,
    {
        &self.claim_types
    }

    /// The claims that the provider may put in its tokens.
    pub fn claims_supported(&self) -> (r: &Vec<String>)
        ensures
            r.deep_view() == self@.claims_supported,
    {
        &self.claims
    }

    /// Whether the `claims` request parameter is honoured.
    pub fn claims_parameter_supported(&self) -> (r: bool)
        ensures
            r == self@.claims_parameter_supported,
    {
        self.claims_parameter
    }

    /// Whether the `request` parameter is honoured.
    pub fn request_parameter_supported(&self) -> (r: bool)
        ensures
            r == self@.request_parameter_supported,
    {
        self.request_parameter
    }

    /// Whether the `request_uri` parameter is honoured.
    pub fn request_uri_parameter_supported(&self) -> (r: bool)
        ensures
            r == self@.request_uri_parameter_supported,
    {
        self.request_uri_parameter
    }

    /// The document as it is published, field by field.
    pub fn fields(&self) -> (fields: Vec<Field>)
        ensures
            fields_view(fields@) == self@.fields(),
    {
        let mut fields: Vec<Field> = Vec::new();
        put(&mut fields, "issuer", FieldValue::Text(self.issuer.clone()));
        assert(fields_view(fields@) =~= seq![FieldView { name: "issuer"@, value: ValueView::Text(self.issuer@) }]);
        put_endpoint(&mut fields, "authorization_endpoint", &self.endpoints.authorization);
        put_endpoint(&mut fields, "token_endpoint", &self.endpoints.token);
        put_endpoint(&mut fields, "jwks_uri", &self.endpoints.jwks);
        put_endpoint(&mut fields, "userinfo_endpoint", &self.endpoints.userinfo);
        put_endpoint(&mut fields, "introspection_endpoint", &self.endpoints.introspection);
        put(&mut fields, "scopes_supported", FieldValue::List(copy_strings(&self.scopes)));
        put(&mut fields, "response_types_supported", FieldValue::List(names(&self.response_types)));
        put(&mut fields, "response_modes_supported", FieldValue::List(names(&self.response_modes)));
        put(&mut fields, "grant_types_supported", FieldValue::List(names(&self.grant_types)));
        put(&mut fields, "token_endpoint_auth_methods_supported", FieldValue::List(names(&self.client_auth_methods)));
        put(&mut fields, "token_endpoint_auth_signing_alg_values_supported", FieldValue::List(names(&self.client_auth_signing_algs)));
        put(&mut fields, "introspection_endpoint_auth_methods_supported", FieldValue::List(names(&self.client_auth_methods)));
        put(&mut fields, "introspection_endpoint_auth_signing_alg_values_supported", FieldValue::List(names(&self.client_auth_signing_algs)));
        put(&mut fields, "code_challenge_methods_supported", FieldValue::List(names(&self.code_challenge_methods)));
        put(&mut fields, "subject_types_supported", FieldValue::List(names(&self.subject_types)));
        put(&mut fields, "id_token_signing_alg_values_supported", FieldValue::List(names(&self.id_token_signing_algs)));
        put(&mut fields, "display_values_supported", FieldValue::List(names(&self.display_values)));
        put(&mut fields, "claim_types_supported", FieldValue::List(names(&self.claim_types)));
        put(&mut fields, "claims_supported", FieldValue::List(copy_strings(&self.claims)));
        put(&mut fields, "claims_parameter_supported", FieldValue::Flag(self.claims_parameter));
        put(&mut fields, "request_parameter_supported", FieldValue::Flag(self.request_parameter));
        put(&mut fields, "request_uri_parameter_supported", FieldValue::Flag(self.request_uri_parameter));
        fields
    }
}

/// Builds the discovery document of the provider called `issuer`, which can
/// sign ID tokens with `supported_signing_algorithms`. Each endpoint is the
/// issuer joined with its fixed relative path; one that cannot be joined,
/// as with an issuer that is no absolute URL, is left out of the document.
pub fn build_metadata(issuer: &str, supported_signing_algorithms: &[JsonWebSignatureAlg]) -> (metadata:
    ProviderMetadata)
    ensures
        metadata@ == document_for(issuer@, endpoints_of(issuer@), supported_signing_algorithms@),
        metadata@.lists_are_sets(),
        metadata@.client_auth_is_uniform(),
{
    let endpoints = resolve_endpoints(issuer);
    ProviderMetadata::assemble(issuer.to_owned(), endpoints, supported_signing_algorithms)
}

} // verus!
