//! The OpenID configuration of an authorization server, as far as it is used.
use vstd::prelude::*;
use vstd::string::*;

use crate::auth::AuthError;
use crate::outside::{json_members, json_object, member_of, JsonMember};
use crate::text::{opt_view, result_view};

verus! {

/// A field of the OpenID configuration.
#[derive(Debug)]
pub enum Field<S = String> {
    Absent,
    Text(S),
    Other,
}

impl View for Field {
    type V = Field<Seq<char>>;

    open spec fn view(&self) -> Field<Seq<char>> {
        match *self {
            Field::Absent => Field::Absent,
            Field::Text(t) => Field::Text(t@),
            Field::Other => Field::Other,
        }
    }
}

impl Clone for Field {
    fn clone(&self) -> (r: Self)
        ensures
            r@ == self@,
    {
        match self {
            Field::Absent => Field::Absent,
            Field::Text(t) => Field::Text(t.clone()),
            Field::Other => Field::Other,
        }
    }
}

/// What is used of the OpenID configuration of an authorization server. The
/// supported scopes are joined by spaces; they are absent where the server gives
/// no list.
#[derive(Debug)]
pub struct OidcConfig<S = String> {
    pub authorization_endpoint: Field<S>,
    pub token_endpoint: Field<S>,
    pub issuer: Field<S>,
    pub registration_endpoint: Field<S>,
    pub scopes_supported: Option<S>,
}

impl View for OidcConfig {
    type V = OidcConfig<Seq<char>>;

    open spec fn view(&self) -> OidcConfig<Seq<char>> {
        OidcConfig {
            authorization_endpoint: self.authorization_endpoint@,
            token_endpoint: self.token_endpoint@,
            issuer: self.issuer@,
            registration_endpoint: self.registration_endpoint@,
            scopes_supported: opt_view(self.scopes_supported),
        }
    }
}

impl Clone for OidcConfig {
    fn clone(&self) -> (r: Self)
        ensures
            r@ == self@,
    {
        OidcConfig {
            authorization_endpoint: self.authorization_endpoint.clone(),
            token_endpoint: self.token_endpoint.clone(),
            issuer: self.issuer.clone(),
            registration_endpoint: self.registration_endpoint.clone(),
            scopes_supported: self.scopes_supported.clone(),
        }
    }
}

impl OidcConfig<Seq<char>> {
    /// The first required field that is absent.
    pub open spec fn missing_field(self) -> Option<Seq<char>> {
        if self.authorization_endpoint is Absent {
            Some("authorization_endpoint"@)
        } else if self.token_endpoint is Absent {
            Some("token_endpoint"@)
        } else if self.issuer is Absent {
            Some("issuer"@)
        } else {
            None
        }
    }
}

/// The items of a list that are strings, joined by spaces.
pub open spec fn joined_scopes(items: Seq<Option<Seq<char>>>) -> Seq<char>
    decreases items.len(),
{
    if items.len() == 0 {
        Seq::empty()
    } else {
        let before = items.drop_last();
        match items.last() {
            None => joined_scopes(before),
            Some(t) => if some_text(before) {
                joined_scopes(before) + " "@ + t
            } else {
                t
            },
        }
    }
}

/// Whether some item of a list is a string.
pub open spec fn some_text(items: Seq<Option<Seq<char>>>) -> bool {
    exists|i: int| 0 <= i < items.len() && (#[trigger] items[i]) is Some
}

/// A field as it is used.
pub open spec fn field_of(member: JsonMember<Seq<char>, Seq<Option<Seq<char>>>>) -> Field<
    Seq<char>,
> {
    match member {
        JsonMember::Absent => Field::Absent,
        JsonMember::Text(t) => Field::Text(t),
        _ => Field::Other,
    }
}

/// The scopes as they are used.
pub open spec fn scopes_of(member: JsonMember<Seq<char>, Seq<Option<Seq<char>>>>) -> Option<
    Seq<char>,
> {
    match member {
        JsonMember::List(items) => Some(joined_scopes(items)),
        _ => None,
    }
}

/// The OpenID configuration that the members of a JSON object give.
pub open spec fn config_of(
    object: Map<Seq<char>, JsonMember<Seq<char>, Seq<Option<Seq<char>>>>>,
) -> OidcConfig<Seq<char>> {
    OidcConfig {
        authorization_endpoint: field_of(member_of(object, "authorization_endpoint"@)),
        token_endpoint: field_of(member_of(object, "token_endpoint"@)),
        issuer: field_of(member_of(object, "issuer"@)),
        registration_endpoint: field_of(member_of(object, "registration_endpoint"@)),
        scopes_supported: scopes_of(member_of(object, "scopes_supported"@)),
    }
}

/// The OpenID configuration in the body of an answer, or why there is none.
pub open spec fn config_in(body: Seq<u8>) -> Result<OidcConfig<Seq<char>>, AuthError<Seq<char>>> {
    match json_object(body) {
        None => Err(AuthError::Http("error decoding response body"@)),
        Some(object) => checked_config(config_of(object)),
    }
}

/// A configuration that has every required field, or which one it misses.
pub open spec fn checked_config(config: OidcConfig<Seq<char>>) -> Result<
    OidcConfig<Seq<char>>,
    AuthError<Seq<char>>,
> {
    match config.missing_field() {
        Some(field) => Err(
            AuthError::Other("OIDC configuration missing required field: "@ + field),
        ),
        None => Ok(config),
    }
}

/// A field as it is used.
pub fn to_field(member: JsonMember) -> (r: Field)
    ensures
        r@ == field_of(member@),
{
    match member {
        JsonMember::Absent => Field::Absent,
        JsonMember::Text(t) => Field::Text(t),
        _ => Field::Other,
    }
}

/// The scopes as they are used.
pub fn to_scopes(member: JsonMember) -> (r: Option<String>)
    ensures
        opt_view(r) == scopes_of(member@),
{
    match member {
        JsonMember::List(items) => {
            let ghost texts = items@.map_values(|o: Option<String>| opt_view(o));
            let mut joined: String = String::new();
            let mut found: bool = false;
            let mut i: usize = 0;
            assert(texts.take(0) =~= Seq::empty());
            while i < items.len()
                invariant
                    texts == items@.map_values(|o: Option<String>| opt_view(o)),
                    i <= items@.len(),
                    joined@ == joined_scopes(texts.take(i as int)),
                    found == some_text(texts.take(i as int)),
                    !found ==> joined@ == Seq::<char>::empty(),
                decreases items@.len() - i,
            {
                let ghost done = texts.take(i + 1);
                assert(done.drop_last() =~= texts.take(i as int));
                assert(done.last() == opt_view(items@[i as int]));
                match &items[i] {
                    Some(t) => {
                        if found {
                            joined.append(" ");
                        }
                        joined.append(t.as_str());
                        assert(Seq::<char>::empty() + t@ =~= t@);
                        assert(done[i as int] is Some);
                        found = true;
                    },
                    None => {
                        proof {
                            if found {
                                let k = choose|k: int|
                                    0 <= k < i && (#[trigger] texts.take(i as int)[k]) is Some;
                                assert(done[k] is Some);
                            }
                            if some_text(done) {
                                let k = choose|k: int|
                                    0 <= k < done.len() && (#[trigger] done[k]) is Some;
                                assert(texts.take(i as int)[k] is Some);
                            }
                        }
                    },
                }
                i = i + 1;
            }
            assert(texts.take(items@.len() as int) =~= texts);
            Some(joined)
        },
        _ => None,
    }
}

impl OidcConfig {
    /// The configuration, if it has every required field.
    pub fn checked(self) -> (r: Result<OidcConfig, AuthError>)
        ensures
            result_view(r) == checked_config(self@),
    {
        let missing: &str = match (
            &self.authorization_endpoint,
            &self.token_endpoint,
            &self.issuer,
        ) {
            (Field::Absent, _, _) => "authorization_endpoint",
            (_, Field::Absent, _) => "token_endpoint",
            (_, _, Field::Absent) => "issuer",
            _ => {
                return Ok(self);
            },
        };
        Err(
            AuthError::Other(
                "OIDC configuration missing required field: ".to_string().concat(missing),
            ),
        )
    }

    /// Reads the configuration from the body of an answer.
    pub fn read(body: &[u8]) -> (r: Result<OidcConfig, AuthError>)
        ensures
            result_view(r) == config_in(body@),
    {
        let keys = (
            "authorization_endpoint",
            "token_endpoint",
            "issuer",
            "registration_endpoint",
            "scopes_supported",
        );
        match json_members(body, keys) {
            Ok((authorization, token, issuer, registration, scopes)) => OidcConfig {
                authorization_endpoint: to_field(authorization),
                token_endpoint: to_field(token),
                issuer: to_field(issuer),
                registration_endpoint: to_field(registration),
                scopes_supported: to_scopes(scopes),
            }.checked(),
            Err(_) => Err(AuthError::Http("error decoding response body".to_string())),
        }
    }
}

} // verus!
