//! Closed sets of values from the protocol registries.

use vstd::prelude::*;

verus! {

/// A value of one of the closed sets that the protocol is made of. Each has
/// one name, the one it is written with on the wire.
pub trait WireValue {
    /// The name of the value.
    spec fn name(&self) -> Seq<char>;

    /// The name of the value, as a string.
    fn as_str(&self) -> (r: &'static str)
        ensures
            r@ == self.name(),
    ;
}

/// A signature or MAC algorithm for a JSON Web Signature.
#[derive(Clone, Copy, Debug, PartialEq, Eq, Hash, Structural)]
pub enum JsonWebSignatureAlg {
    /// HMAC using SHA-256.
    Hs256,
    /// HMAC using SHA-384.
    Hs384,
    /// HMAC using SHA-512.
    Hs512,
    /// RSASSA-PKCS1-v1_5 using SHA-256.
    Rs256,
    /// RSASSA-PKCS1-v1_5 using SHA-384.
    Rs384,
    /// RSASSA-PKCS1-v1_5 using SHA-512.
    Rs512,
    /// ECDSA using P-256 and SHA-256.
    Es256,
    /// ECDSA using P-384 and SHA-384.
    Es384,
    /// ECDSA using P-521 and SHA-512.
    Es512,
    /// RSASSA-PSS using SHA-256 and MGF1 with SHA-256.
    Ps256,
    /// RSASSA-PSS using SHA-384 and MGF1 with SHA-384.
    Ps384,
    /// RSASSA-PSS using SHA-512 and MGF1 with SHA-512.
    Ps512,
    /// No digital signature or MAC performed.
    Unsecured,
    /// EdDSA signature algorithms.
    EdDsa,
    /// ECDSA using secp256k1 curve and SHA-256.
    Es256K,
}

impl WireValue for JsonWebSignatureAlg {
    open spec fn name(&self) -> Seq<char> {
        match self {
            JsonWebSignatureAlg::Hs256 => "HS256"@,
            JsonWebSignatureAlg::Hs384 => "HS384"@,
            JsonWebSignatureAlg::Hs512 => "HS512"@,
            JsonWebSignatureAlg::Rs256 => "RS256"@,
            JsonWebSignatureAlg::Rs384 => "RS384"@,
            JsonWebSignatureAlg::Rs512 => "RS512"@,
            JsonWebSignatureAlg::Es256 => "ES256"@,
            JsonWebSignatureAlg::Es384 => "ES384"@,
            JsonWebSignatureAlg::Es512 => "ES512"@,
            JsonWebSignatureAlg::Ps256 => "PS256"@,
            JsonWebSignatureAlg::Ps384 => "PS384"@,
            JsonWebSignatureAlg::Ps512 => "PS512"@,
            JsonWebSignatureAlg::Unsecured => "none"@,
            JsonWebSignatureAlg::EdDsa => "EdDSA"@,
            JsonWebSignatureAlg::Es256K => "ES256K"@,
        }
    }

    fn as_str(&self) -> (r: &'static str) {
        match self {
            JsonWebSignatureAlg::Hs256 => "HS256",
            JsonWebSignatureAlg::Hs384 => "HS384",
            JsonWebSignatureAlg::Hs512 => "HS512",
            JsonWebSignatureAlg::Rs256 => "RS256",
            JsonWebSignatureAlg::Rs384 => "RS384",
            JsonWebSignatureAlg::Rs512 => "RS512",
            JsonWebSignatureAlg::Es256 => "ES256",
            JsonWebSignatureAlg::Es384 => "ES384",
            JsonWebSignatureAlg::Es512 => "ES512",
            JsonWebSignatureAlg::Ps256 => "PS256",
            JsonWebSignatureAlg::Ps384 => "PS384",
            JsonWebSignatureAlg::Ps512 => "PS512",
            JsonWebSignatureAlg::Unsecured => "none",
            JsonWebSignatureAlg::EdDsa => "EdDSA",
            JsonWebSignatureAlg::Es256K => "ES256K",
        }
    }
}

/// How a client authenticates at the token and introspection endpoints.
#[derive(Clone, Copy, Debug, PartialEq, Eq, Hash, Structural)]
pub enum OAuthClientAuthenticationMethod {
    NoAuthentication,
    ClientSecretPost,
    ClientSecretBasic,
    ClientSecretJwt,
    PrivateKeyJwt,
    TlsClientAuth,
    SelfSignedTlsClientAuth,
}

impl WireValue for OAuthClientAuthenticationMethod {
    open spec fn name(&self) -> Seq<char> {
        match self {
            OAuthClientAuthenticationMethod::NoAuthentication => "none"@,
            OAuthClientAuthenticationMethod::ClientSecretPost => "client_secret_post"@,
            OAuthClientAuthenticationMethod::ClientSecretBasic => "client_secret_basic"@,
            OAuthClientAuthenticationMethod::ClientSecretJwt => "client_secret_jwt"@,
            OAuthClientAuthenticationMethod::PrivateKeyJwt => "private_key_jwt"@,
            OAuthClientAuthenticationMethod::TlsClientAuth => "tls_client_auth"@,
            OAuthClientAuthenticationMethod::SelfSignedTlsClientAuth => "self_signed_tls_client_auth"@,
        }
    }

    fn as_str(&self) -> (r: &'static str) {
        match self {
            OAuthClientAuthenticationMethod::NoAuthentication => "none",
            OAuthClientAuthenticationMethod::ClientSecretPost => "client_secret_post",
            OAuthClientAuthenticationMethod::ClientSecretBasic => "client_secret_basic",
            OAuthClientAuthenticationMethod::ClientSecretJwt => "client_secret_jwt",
            OAuthClientAuthenticationMethod::PrivateKeyJwt => "private_key_jwt",
            OAuthClientAuthenticationMethod::TlsClientAuth => "tls_client_auth",
            OAuthClientAuthenticationMethod::SelfSignedTlsClientAuth => "self_signed_tls_client_auth",
        }
    }
}

/// What the authorization endpoint hands back to the client.
#[derive(Clone, Copy, Debug, PartialEq, Eq, Hash, Structural)]
pub enum OAuthAuthorizationEndpointResponseType {
    Code,
    CodeIdToken,
    CodeIdTokenToken,
    CodeToken,
    IdToken,
    IdTokenToken,
    NoResponse,
    Token,
}

impl WireValue for OAuthAuthorizationEndpointResponseType {
    open spec fn name(&self) -> Seq<char> {
        match self {
            OAuthAuthorizationEndpointResponseType::Code => "code"@,
            OAuthAuthorizationEndpointResponseType::CodeIdToken => "code id_token"@,
            OAuthAuthorizationEndpointResponseType::CodeIdTokenToken => "code id_token token"@,
            OAuthAuthorizationEndpointResponseType::CodeToken => "code token"@,
            OAuthAuthorizationEndpointResponseType::IdToken => "id_token"@,
            OAuthAuthorizationEndpointResponseType::IdTokenToken => "id_token token"@,
            OAuthAuthorizationEndpointResponseType::NoResponse => "none"@,
            OAuthAuthorizationEndpointResponseType::Token => "token"@,
        }
    }

    fn as_str(&self) -> (r: &'static str) {
        match self {
            OAuthAuthorizationEndpointResponseType::Code => "code",
            OAuthAuthorizationEndpointResponseType::CodeIdToken => "code id_token",
            OAuthAuthorizationEndpointResponseType::CodeIdTokenToken => "code id_token token",
            OAuthAuthorizationEndpointResponseType::CodeToken => "code token",
            OAuthAuthorizationEndpointResponseType::IdToken => "id_token",
            OAuthAuthorizationEndpointResponseType::IdTokenToken => "id_token token",
            OAuthAuthorizationEndpointResponseType::NoResponse => "none",
            OAuthAuthorizationEndpointResponseType::Token => "token",
        }
    }
}

/// How a proof key for code exchange is turned into its challenge.
#[derive(Clone, Copy, Debug, PartialEq, Eq, Hash, Structural)]
pub enum PkceCodeChallengeMethod {
    Plain,
    S256,
}

impl WireValue for PkceCodeChallengeMethod {
    open spec fn name(&self) -> Seq<char> {
        match self {
            PkceCodeChallengeMethod::Plain => "plain"@,
            PkceCodeChallengeMethod::S256 => "S256"@,
        }
    }

    fn as_str(&self) -> (r: &'static str) {
        match self {
            PkceCodeChallengeMethod::Plain => "plain",
            PkceCodeChallengeMethod::S256 => "S256",
        }
    }
}
} // verus!
