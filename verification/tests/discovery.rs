use mas_handlers::discovery::build_metadata;
use mas_handlers::discovery::distinct_algorithms;
use mas_handlers::discovery::resolve_endpoints;
use mas_handlers::discovery::Endpoints;
use mas_handlers::discovery::Field;
use mas_handlers::discovery::FieldValue;
use mas_handlers::discovery::ProviderMetadata;
use mas_handlers::discovery::AUTHORIZATION_PATH;
use mas_handlers::discovery::DISCOVERY_PATH;
use mas_handlers::discovery::INTROSPECTION_PATH;
use mas_handlers::discovery::JWKS_PATH;
use mas_handlers::discovery::TOKEN_PATH;
use mas_handlers::discovery::USERINFO_PATH;
use mas_handlers::iana::JsonWebSignatureAlg;
use mas_handlers::iana::OAuthAuthorizationEndpointResponseType;
use mas_handlers::iana::OAuthClientAuthenticationMethod;
use mas_handlers::iana::PkceCodeChallengeMethod;
use mas_handlers::iana::WireValue;
use mas_handlers::oidc::ClaimType;
use mas_handlers::oidc::Display;
use mas_handlers::oidc::GrantType;
use mas_handlers::oidc::ResponseMode;
use mas_handlers::oidc::SubjectType;

fn some(text: &str) -> Option<String> {
    Some(text.to_string())
}

#[test]
fn endpoints_are_the_issuer_joined_with_fixed_paths() {
    let metadata = build_metadata("https://example.com/", &[JsonWebSignatureAlg::Rs256]);
    assert_eq!(metadata.issuer(), "https://example.com/");
    assert_eq!(
        metadata.authorization_endpoint(),
        &some("https://example.com/oauth2/authorize")
    );
    assert_eq!(metadata.token_endpoint(), &some("https://example.com/oauth2/token"));
    assert_eq!(metadata.jwks_uri(), &some("https://example.com/oauth2/keys.json"));
    assert_eq!(
        metadata.introspection_endpoint(),
        &some("https://example.com/oauth2/introspect")
    );
    assert_eq!(
        metadata.userinfo_endpoint(),
        &some("https://example.com/oauth2/userinfo")
    );
}

#[test]
fn endpoints_follow_an_issuer_with_a_path() {
    let metadata = build_metadata("https://example.com/auth/", &[JsonWebSignatureAlg::Rs256]);
    assert_eq!(
        metadata.token_endpoint(),
        &some("https://example.com/auth/oauth2/token")
    );
    assert_eq!(
        metadata.jwks_uri(),
        &some("https://example.com/auth/oauth2/keys.json")
    );
}

#[test]
fn the_last_segment_of_an_issuer_without_slash_is_replaced() {
    let endpoints = resolve_endpoints("https://example.com/auth");
    assert_eq!(endpoints.token, some("https://example.com/oauth2/token"));
    assert_eq!(endpoints.userinfo, some("https://example.com/oauth2/userinfo"));
}

#[test]
fn an_issuer_without_a_path_gets_one() {
    let endpoints = resolve_endpoints("https://example.com");
    assert_eq!(
        endpoints,
        Endpoints {
            authorization: some("https://example.com/oauth2/authorize"),
            token: some("https://example.com/oauth2/token"),
            jwks: some("https://example.com/oauth2/keys.json"),
            introspection: some("https://example.com/oauth2/introspect"),
            userinfo: some("https://example.com/oauth2/userinfo"),
        }
    );
}

#[test]
fn a_malformed_issuer_leaves_the_endpoints_out() {
    let metadata = build_metadata("not a url", &[JsonWebSignatureAlg::Rs256]);
    assert_eq!(metadata.issuer(), "not a url");
    assert_eq!(metadata.authorization_endpoint(), &None);
    assert_eq!(metadata.token_endpoint(), &None);
    assert_eq!(metadata.jwks_uri(), &None);
    assert_eq!(metadata.introspection_endpoint(), &None);
    assert_eq!(metadata.userinfo_endpoint(), &None);
    assert_eq!(metadata.scopes_supported(), &vec!["openid".to_string()]);
    assert_eq!(metadata.grant_types_supported().len(), 2);
}

#[test]
fn an_issuer_that_cannot_be_a_base_leaves_the_endpoints_out() {
    let endpoints = resolve_endpoints("mailto:admin@example.com");
    assert_eq!(
        endpoints,
        Endpoints {
            authorization: None,
            token: None,
            jwks: None,
            introspection: None,
            userinfo: None,
        }
    );
    let empty = resolve_endpoints("");
    assert_eq!(empty.authorization, None);
    assert_eq!(empty.userinfo, None);
}

#[test]
fn the_relative_paths_are_fixed() {
    assert_eq!(DISCOVERY_PATH, ".well-known/openid-configuration");
    assert_eq!(AUTHORIZATION_PATH, "oauth2/authorize");
    assert_eq!(TOKEN_PATH, "oauth2/token");
    assert_eq!(JWKS_PATH, "oauth2/keys.json");
    assert_eq!(INTROSPECTION_PATH, "oauth2/introspect");
    assert_eq!(USERINFO_PATH, "oauth2/userinfo");
}

#[test]
fn token_and_introspection_endpoints_authenticate_alike() {
    for issuer in ["https://example.com/", "https://id.example.org/realm/", "bogus"] {
        let metadata = build_metadata(issuer, &[JsonWebSignatureAlg::Es256]);
        assert_eq!(
            metadata.token_endpoint_auth_methods_supported(),
            metadata.introspection_endpoint_auth_methods_supported()
        );
        assert_eq!(
            metadata.token_endpoint_auth_signing_alg_values_supported(),
            metadata.introspection_endpoint_auth_signing_alg_values_supported()
        );
    }
}

#[test]
fn client_authentication_sets_are_the_fixed_ones() {
    let metadata = build_metadata("https://example.com/", &[]);
    assert_eq!(
        metadata.token_endpoint_auth_methods_supported(),
        &vec![
            OAuthClientAuthenticationMethod::ClientSecretBasic,
            OAuthClientAuthenticationMethod::ClientSecretPost,
            OAuthClientAuthenticationMethod::ClientSecretJwt,
            OAuthClientAuthenticationMethod::PrivateKeyJwt,
            OAuthClientAuthenticationMethod::NoAuthentication,
        ]
    );
    assert_eq!(
        metadata.introspection_endpoint_auth_signing_alg_values_supported(),
        &vec![
            JsonWebSignatureAlg::Hs256,
            JsonWebSignatureAlg::Hs384,
            JsonWebSignatureAlg::Hs512,
            JsonWebSignatureAlg::Rs256,
            JsonWebSignatureAlg::Rs384,
            JsonWebSignatureAlg::Rs512,
        ]
    );
}

#[test]
fn capability_sets_are_the_fixed_ones() {
    let metadata = build_metadata("https://example.com/", &[JsonWebSignatureAlg::Rs256]);
    assert_eq!(metadata.scopes_supported(), &vec!["openid".to_string()]);
    assert_eq!(
        metadata.response_types_supported(),
        &vec![
            OAuthAuthorizationEndpointResponseType::Code,
            OAuthAuthorizationEndpointResponseType::Token,
            OAuthAuthorizationEndpointResponseType::IdToken,
            OAuthAuthorizationEndpointResponseType::CodeToken,
            OAuthAuthorizationEndpointResponseType::CodeIdToken,
            OAuthAuthorizationEndpointResponseType::IdTokenToken,
        ]
    );
    assert_eq!(
        metadata.response_modes_supported(),
        &vec![ResponseMode::FormPost, ResponseMode::Query, ResponseMode::Fragment]
    );
    assert_eq!(
        metadata.grant_types_supported(),
        &vec![GrantType::AuthorizationCode, GrantType::RefreshToken]
    );
    assert_eq!(
        metadata.code_challenge_methods_supported(),
        &vec![PkceCodeChallengeMethod::Plain, PkceCodeChallengeMethod::S256]
    );
    assert_eq!(metadata.subject_types_supported(), &vec![SubjectType::Public]);
    assert_eq!(metadata.display_values_supported(), &vec![Display::Page]);
    assert_eq!(metadata.claim_types_supported(), &vec![ClaimType::Normal]);
    let claims: Vec<String> = [
        "iss", "sub", "aud", "iat", "exp", "nonce", "auth_time", "at_hash", "c_hash",
    ]
    .iter()
    .map(|claim| claim.to_string())
    .collect();
    assert_eq!(metadata.claims_supported(), &claims);
    assert!(!metadata.claims_parameter_supported());
    assert!(!metadata.request_parameter_supported());
    assert!(!metadata.request_uri_parameter_supported());
}

#[test]
fn signing_algorithms_come_from_the_caller() {
    let metadata = build_metadata(
        "https://example.com/",
        &[JsonWebSignatureAlg::Es256, JsonWebSignatureAlg::Rs256, JsonWebSignatureAlg::EdDsa],
    );
    assert_eq!(
        metadata.id_token_signing_alg_values_supported(),
        &vec![JsonWebSignatureAlg::Es256, JsonWebSignatureAlg::Rs256, JsonWebSignatureAlg::EdDsa]
    );
}

#[test]
fn a_repeated_algorithm_is_published_once() {
    let algs = [
        JsonWebSignatureAlg::Rs256,
        JsonWebSignatureAlg::Es256,
        JsonWebSignatureAlg::Rs256,
        JsonWebSignatureAlg::Ps512,
        JsonWebSignatureAlg::Es256,
    ];
    assert_eq!(
        distinct_algorithms(&algs),
        vec![JsonWebSignatureAlg::Rs256, JsonWebSignatureAlg::Es256, JsonWebSignatureAlg::Ps512]
    );
    assert_eq!(distinct_algorithms(&[]), Vec::<JsonWebSignatureAlg>::new());
    let metadata = build_metadata("https://example.com/", &algs);
    assert_eq!(metadata.id_token_signing_alg_values_supported().len(), 3);
}

#[test]
fn the_document_is_stable_across_calls() {
    let algs = [JsonWebSignatureAlg::Rs256, JsonWebSignatureAlg::Es256];
    let first = build_metadata("https://example.com/", &algs);
    let second = build_metadata("https://example.com/", &algs);
    let third = build_metadata("https://example.com/", &algs);
    assert_eq!(first, second);
    assert_eq!(second, third);
    assert_eq!(format!("{:?}", first), format!("{:?}", third));
}

#[test]
fn assemble_takes_the_endpoints_as_given() {
    let endpoints = Endpoints {
        authorization: some("https://a.example/authorize"),
        token: None,
        jwks: some("https://a.example/keys"),
        introspection: None,
        userinfo: some("https://a.example/me"),
    };
    let metadata = ProviderMetadata::assemble(
        "https://a.example/".to_string(),
        endpoints,
        &[JsonWebSignatureAlg::Rs256, JsonWebSignatureAlg::Rs256],
    );
    assert_eq!(metadata.issuer(), "https://a.example/");
    assert_eq!(metadata.authorization_endpoint(), &some("https://a.example/authorize"));
    assert_eq!(metadata.token_endpoint(), &None);
    assert_eq!(metadata.jwks_uri(), &some("https://a.example/keys"));
    assert_eq!(metadata.introspection_endpoint(), &None);
    assert_eq!(metadata.userinfo_endpoint(), &some("https://a.example/me"));
    assert_eq!(
        metadata.id_token_signing_alg_values_supported(),
        &vec![JsonWebSignatureAlg::Rs256]
    );
}

#[test]
fn registered_names_are_the_wire_names() {
    assert_eq!(JsonWebSignatureAlg::Hs256.as_str(), "HS256");
    assert_eq!(JsonWebSignatureAlg::Ps384.as_str(), "PS384");
    assert_eq!(JsonWebSignatureAlg::Unsecured.as_str(), "none");
    assert_eq!(JsonWebSignatureAlg::EdDsa.as_str(), "EdDSA");
    assert_eq!(JsonWebSignatureAlg::Es256K.as_str(), "ES256K");
    assert_eq!(
        OAuthClientAuthenticationMethod::ClientSecretBasic.as_str(),
        "client_secret_basic"
    );
    assert_eq!(OAuthClientAuthenticationMethod::NoAuthentication.as_str(), "none");
    assert_eq!(
        OAuthClientAuthenticationMethod::SelfSignedTlsClientAuth.as_str(),
        "self_signed_tls_client_auth"
    );
    assert_eq!(OAuthAuthorizationEndpointResponseType::Code.as_str(), "code");
    assert_eq!(
        OAuthAuthorizationEndpointResponseType::CodeIdTokenToken.as_str(),
        "code id_token token"
    );
    assert_eq!(OAuthAuthorizationEndpointResponseType::IdTokenToken.as_str(), "id_token token");
    assert_eq!(OAuthAuthorizationEndpointResponseType::NoResponse.as_str(), "none");
    assert_eq!(PkceCodeChallengeMethod::Plain.as_str(), "plain");
    assert_eq!(PkceCodeChallengeMethod::S256.as_str(), "S256");
    assert_eq!(ResponseMode::FormPost.as_str(), "form_post");
    assert_eq!(ResponseMode::Query.as_str(), "query");
    assert_eq!(ResponseMode::Fragment.as_str(), "fragment");
    assert_eq!(GrantType::AuthorizationCode.as_str(), "authorization_code");
    assert_eq!(GrantType::RefreshToken.as_str(), "refresh_token");
    assert_eq!(GrantType::ClientCredentials.as_str(), "client_credentials");
    assert_eq!(Display::Page.as_str(), "page");
    assert_eq!(Display::Wap.as_str(), "wap");
    assert_eq!(ClaimType::Normal.as_str(), "normal");
    assert_eq!(ClaimType::Distributed.as_str(), "distributed");
    assert_eq!(SubjectType::Public.as_str(), "public");
    assert_eq!(SubjectType::Pairwise.as_str(), "pairwise");
}

fn list(items: &[&str]) -> FieldValue {
    FieldValue::List(items.iter().map(|item| item.to_string()).collect())
}

fn text(name: &'static str, value: &str) -> Field {
    Field { name, value: FieldValue::Text(value.to_string()) }
}

fn capabilities() -> Vec<Field> {
    let methods = [
        "client_secret_basic",
        "client_secret_post",
        "client_secret_jwt",
        "private_key_jwt",
        "none",
    ];
    let algs = ["HS256", "HS384", "HS512", "RS256", "RS384", "RS512"];
    vec![
        Field { name: "scopes_supported", value: list(&["openid"]) },
        Field {
            name: "response_types_supported",
            value: list(&[
                "code",
                "token",
                "id_token",
                "code token",
                "code id_token",
                "id_token token",
            ]),
        },
        Field {
            name: "response_modes_supported",
            value: list(&["form_post", "query", "fragment"]),
        },
        Field {
            name: "grant_types_supported",
            value: list(&["authorization_code", "refresh_token"]),
        },
        Field { name: "token_endpoint_auth_methods_supported", value: list(&methods) },
        Field { name: "token_endpoint_auth_signing_alg_values_supported", value: list(&algs) },
        Field { name: "introspection_endpoint_auth_methods_supported", value: list(&methods) },
        Field {
            name: "introspection_endpoint_auth_signing_alg_values_supported",
            value: list(&algs),
        },
        Field { name: "code_challenge_methods_supported", value: list(&["plain", "S256"]) },
        Field { name: "subject_types_supported", value: list(&["public"]) },
        Field {
            name: "id_token_signing_alg_values_supported",
            value: list(&["ES256", "EdDSA"]),
        },
        Field { name: "display_values_supported", value: list(&["page"]) },
        Field { name: "claim_types_supported", value: list(&["normal"]) },
        Field {
            name: "claims_supported",
            value: list(&[
                "iss", "sub", "aud", "iat", "exp", "nonce", "auth_time", "at_hash", "c_hash",
            ]),
        },
        Field { name: "claims_parameter_supported", value: FieldValue::Flag(false) },
        Field { name: "request_parameter_supported", value: FieldValue::Flag(false) },
        Field { name: "request_uri_parameter_supported", value: FieldValue::Flag(false) },
    ]
}

#[test]
fn the_published_document_has_every_field() {
    let metadata = build_metadata(
        "https://example.com/",
        &[JsonWebSignatureAlg::Es256, JsonWebSignatureAlg::EdDsa, JsonWebSignatureAlg::Es256],
    );
    let mut expected = vec![
        text("issuer", "https://example.com/"),
        text("authorization_endpoint", "https://example.com/oauth2/authorize"),
        text("token_endpoint", "https://example.com/oauth2/token"),
        text("jwks_uri", "https://example.com/oauth2/keys.json"),
        text("userinfo_endpoint", "https://example.com/oauth2/userinfo"),
        text("introspection_endpoint", "https://example.com/oauth2/introspect"),
    ];
    expected.extend(capabilities());
    assert_eq!(metadata.fields(), expected);
    assert_eq!(metadata.fields().len(), 23);
}

#[test]
fn a_missing_endpoint_has_no_field() {
    let metadata = build_metadata(
        "nowhere",
        &[JsonWebSignatureAlg::Es256, JsonWebSignatureAlg::EdDsa],
    );
    let mut expected = vec![text("issuer", "nowhere")];
    expected.extend(capabilities());
    assert_eq!(metadata.fields(), expected);
    assert_eq!(metadata.fields().len(), 18);

    let endpoints = Endpoints {
        authorization: None,
        token: some("https://a.example/token"),
        jwks: None,
        introspection: some("https://a.example/introspect"),
        userinfo: None,
    };
    let metadata = ProviderMetadata::assemble(
        "https://a.example/".to_string(),
        endpoints,
        &[JsonWebSignatureAlg::Es256, JsonWebSignatureAlg::EdDsa],
    );
    let mut expected = vec![
        text("issuer", "https://a.example/"),
        text("token_endpoint", "https://a.example/token"),
        text("introspection_endpoint", "https://a.example/introspect"),
    ];
    expected.extend(capabilities());
    assert_eq!(metadata.fields(), expected);
}

#[test]
fn the_published_document_is_stable_across_calls() {
    let algs = [JsonWebSignatureAlg::Rs256, JsonWebSignatureAlg::Es256];
    let first = build_metadata("https://example.com/", &algs).fields();
    for _ in 0..5 {
        assert_eq!(build_metadata("https://example.com/", &algs).fields(), first);
    }
}
