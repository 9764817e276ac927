//! The credentials of one Porkbun account.

use std::borrow::Cow;
use vstd::prelude::*;
use vstd::string::StringExecFns;

use crate::api::params::{copy, text};
use crate::json::{insert_member, new_object, object_members, string_value, Json, Members, Object};

verus! {

/// The API key and the secret API key of an account.
pub struct Auth {
    /// The API key.
    pub apikey: Cow<'static, str>,
    /// The secret API key.
    pub secretapikey: Cow<'static, str>,
}

/// The two members that authenticate a request: the key under `apikey` and
/// the secret under `secretapikey`, each as a JSON string.
pub open spec fn auth_members(key: Seq<char>, secret: Seq<char>) -> Members {
    Members::empty().insert("apikey"@, Json::Text(key)).insert("secretapikey"@, Json::Text(secret))
}

impl Clone for Auth {
    fn clone(&self) -> (same: Self)
        ensures
            same.apikey@ == self.apikey@,
            same.secretapikey@ == self.secretapikey@,
    {
        Auth { apikey: copy(&self.apikey), secretapikey: copy(&self.secretapikey) }
    }
}

impl Auth {
    /// Credentials from an API key and its secret.
    pub fn new(key: Cow<'static, str>, secret: Cow<'static, str>) -> (auth: Self)
        ensures
            auth.apikey == key,
            auth.secretapikey == secret,
    {
        Self { apikey: key, secretapikey: secret }
    }

    /// The fields that a client adds to the body of every request.
    pub fn fields(&self) -> (fields: Object)
        ensures
            object_members(fields) == auth_members(self.apikey@, self.secretapikey@),
    {
        let mut credentials = new_object();
        insert_member(
            &mut credentials,
            String::from_str("apikey"),
            string_value(String::from_str(text(&self.apikey))),
        );
        insert_member(
            &mut credentials,
            String::from_str("secretapikey"),
            string_value(String::from_str(text(&self.secretapikey))),
        );
        credentials
    }
}

} // verus!
