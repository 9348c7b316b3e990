use vstd::prelude::*;
use vstd::string::*;

verus! {

/// Stored credentials of the authenticated catalog.
pub struct Credentials {
    pub token_url: Option<String>,
    pub client_id: Option<String>,
    pub refresh_token: Option<String>,
    pub access_token: Option<String>,
}

/// Credentials that cannot give an access token.
#[derive(PartialEq, Eq, Structural, Debug)]
pub enum ConfigError {
    /// A refresh token without the client identifier it needs.
    MissingClientId,
    /// A refresh token without the token endpoint it needs.
    MissingTokenUrl,
    /// Neither an access token nor a refresh token.
    NoToken,
}

/// The one request that exchanges a refresh token for an access token: a form
/// posted to `url`, whose reply carries the token in its "access_token" field.
pub struct RefreshRequest {
    pub url: String,
    pub form: Vec<(String, String)>,
}

/// Where the access token of the run comes from.
pub enum TokenSource {
    /// No credentials: authenticated fetching is off.
    Disabled,
    /// An access token given as it is, unchecked.
    Ready(String),
    /// An access token to obtain by one refresh exchange.
    Refresh(RefreshRequest),
}

/// The refresh form holds, in order, the client identifier, the grant type,
/// the refresh token and the scope.
pub open spec fn is_refresh_form(form: Seq<(String, String)>, client_id: Seq<char>, refresh_token: Seq<char>) -> bool {
    &&& form.len() == 4
    &&& form[0].0@ == "client_id"@ && form[0].1@ == client_id
    &&& form[1].0@ == "grant_type"@ && form[1].1@ == "refresh_token"@
    &&& form[2].0@ == "refresh_token"@ && form[2].1@ == refresh_token
    &&& form[3].0@ == "scope"@ && form[3].1@ == "r_usr w_usr"@
}

/// Decides how the run obtains its access token. A given access token wins;
/// else a refresh token needs the client identifier and the token endpoint;
/// credentials with neither token are a configuration error.
pub fn token_source(creds: Option<Credentials>) -> (r: Result<TokenSource, ConfigError>)
    ensures
        creds is None ==> r matches Ok(TokenSource::Disabled),
        creds matches Some(c) ==> match c.access_token {
            Some(a) => r matches Ok(TokenSource::Ready(t)) && t@ == a@,
            None => match c.refresh_token {
                None => r == Err::<TokenSource, ConfigError>(ConfigError::NoToken),
                Some(rt) => match (c.client_id, c.token_url) {
                    (None, _) => r == Err::<TokenSource, ConfigError>(ConfigError::MissingClientId),
                    (Some(_), None) => r == Err::<TokenSource, ConfigError>(ConfigError::MissingTokenUrl),
                    (Some(id), Some(u)) => r matches Ok(TokenSource::Refresh(q))
                        && q.url@ == u@ && is_refresh_form(q.form@, id@, rt@),
                },
            },
        },
{
    match creds {
        None => Ok(TokenSource::Disabled),
        Some(c) => match c.access_token {
            Some(a) => Ok(TokenSource::Ready(a)),
            None => match c.refresh_token {
                None => Err(ConfigError::NoToken),
                Some(rt) => match c.client_id {
                    None => Err(ConfigError::MissingClientId),
                    Some(id) => match c.token_url {
                        None => Err(ConfigError::MissingTokenUrl),
                        Some(u) => {
                            let mut form: Vec<(String, String)> = Vec::new();
                            form.push((String::from_str("client_id"), id));
                            form.push((String::from_str("grant_type"), String::from_str("refresh_token")));
                            form.push((String::from_str("refresh_token"), rt));
                            form.push((String::from_str("scope"), String::from_str("r_usr w_usr")));
                            Ok(TokenSource::Refresh(RefreshRequest { url: u, form }))
                        },
                    },
                },
            },
        },
    }
}

} // verus!
