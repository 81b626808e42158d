//! Google sign-in: the consent URL, the token request, and the user info
//! Google reports.
use vstd::prelude::*;
use crate::domain::error::concat_str;

verus! {

broadcast use vstd::string::group_string_axioms;

/// Google's OAuth 2.0 consent page.
pub const GOOGLE_AUTH_URL: &'static str = "https://accounts.google.com/o/oauth2/v2/auth";

/// Google's token endpoint, where an authorization code is exchanged.
pub const GOOGLE_TOKEN_URL: &'static str = "https://oauth2.googleapis.com/token";

/// Google's user-info endpoint.
pub const GOOGLE_USER_INFO_URL: &'static str = "https://openidconnect.googleapis.com/v1/userinfo";

/// The scopes asked for (already URL-encoded).
pub const GOOGLE_SCOPE: &'static str = "openid%20email%20profile";

/// What Google reports of a signed-in user.
pub struct GoogleUserInfo {
    pub sub: String,
    pub email: Option<String>,
    pub name: Option<String>,
}

/// The registration of this application with Google.
pub struct GoogleOAuthClient {
    client_id: String,
    client_secret: String,
    redirect_uri: String,
}

/// The consent URL for a client registration.
pub open spec fn authorization_url_of(client_id: Seq<char>, redirect_uri: Seq<char>) -> Seq<char> {
    GOOGLE_AUTH_URL@ + "?client_id="@ + client_id + "&redirect_uri="@ + redirect_uri
        + "&response_type=code&scope="@ + GOOGLE_SCOPE@ + "&access_type=offline"@
}

impl GoogleOAuthClient {
    pub closed spec fn client_id(self) -> Seq<char> {
        self.client_id@
    }

    pub closed spec fn client_secret(self) -> Seq<char> {
        self.client_secret@
    }

    pub closed spec fn redirect_uri(self) -> Seq<char> {
        self.redirect_uri@
    }

    pub fn new(client_id: String, client_secret: String, redirect_uri: String) -> (res: Self)
        ensures
            res.client_id() == client_id@,
            res.client_secret() == client_secret@,
            res.redirect_uri() == redirect_uri@,
    {
        GoogleOAuthClient { client_id, client_secret, redirect_uri }
    }

    /// The URL users are sent to for consent: client, redirect, code flow,
    /// scopes and offline access.
    pub fn authorization_url(&self) -> (res: String)
        ensures
            res@ == authorization_url_of(self.client_id(), self.redirect_uri()),
    {
        let mut url = concat_str(GOOGLE_AUTH_URL, "?client_id=");
        url.append(self.client_id.as_str());
        url.append("&redirect_uri=");
        url.append(self.redirect_uri.as_str());
        url.append("&response_type=code&scope=");
        url.append(GOOGLE_SCOPE);
        url.append("&access_type=offline");
        url
    }

    /// The form fields that exchange an authorization code for a token.
    pub fn token_request_form(&self, code: &str) -> (res: Vec<(String, String)>)
        ensures
            res@.len() == 5,
            res@[0].0@ == "code"@ && res@[0].1@ == code@,
            res@[1].0@ == "client_id"@ && res@[1].1@ == self.client_id(),
            res@[2].0@ == "client_secret"@ && res@[2].1@ == self.client_secret(),
            res@[3].0@ == "redirect_uri"@ && res@[3].1@ == self.redirect_uri(),
            res@[4].0@ == "grant_type"@ && res@[4].1@ == "authorization_code"@,
    {
        let mut form: Vec<(String, String)> = Vec::new();
        form.push(("code".to_string(), code.to_string()));
        form.push(("client_id".to_string(), self.client_id.clone()));
        form.push(("client_secret".to_string(), self.client_secret.clone()));
        form.push(("redirect_uri".to_string(), self.redirect_uri.clone()));
        form.push(("grant_type".to_string(), "authorization_code".to_string()));
        form
    }
}

} // verus!
