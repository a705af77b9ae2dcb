//! What holds of where an authorization server is asked, of what it answers, and of where the
//! user is sent.
use vstd::prelude::*;
use vstd::string::*;

use crate::auth::{failed_request, is_success, parsed_url_error, server_url_error, well_known};
use crate::auth::{AuthClient, AuthError, ClientRegistration, DiscoverEvent, DiscoverStep};
use crate::authorize::{authorization_pairs, authorization_url_of, requested_scopes};
use crate::authorize::{InitializeEvent, InitializeStep};
use crate::config::{ConfigError, ConfigManager};
use crate::coordination::CoordinationError;
use crate::laws::texts::different_numbers_are_written_differently;
use crate::oidc::{checked_config, config_in, config_of, field_of, joined_scopes, scopes_of};
use crate::oidc::{Field, OidcConfig};
use crate::outside::{json_object, status_text, url_parse, url_query_appended, url_size};
use crate::outside::{JsonMember, UrlParts};
use crate::text::{contains_text, decimal_text, occurs_at};
use crate::utils::url_hash;

verus! {

// ---------------------------------------------------------------- errors

/// An error is shown with what kind it is and with the whole message that came with it.
pub proof fn errors_are_shown_in_full(
    m: Seq<char>,
    e: ConfigError<Seq<char>>,
    a: AuthError<Seq<char>>,
)
    ensures
        ConfigError::Io(m).text() == "IO error: "@ + m,
        ConfigError::Json(m).text() == "JSON error: "@ + m,
        ConfigError::Lock(m).text() == "Lock error: "@ + m,
        ConfigError::<Seq<char>>::NotFound.text() == "Config not found"@,
        AuthError::Config(e).text() == "Config error: "@ + e.text(),
        AuthError::Http(m).text() == "HTTP error: "@ + m,
        AuthError::Url(m).text() == "URL error: "@ + m,
        AuthError::Io(m).text() == "IO error: "@ + m,
        AuthError::Serialization(m).text() == "Serialization error: "@ + m,
        AuthError::<Seq<char>>::AuthRequired.text() == "Authentication required"@,
        AuthError::<Seq<char>>::InvalidServerUrl.text() == "Invalid server URL"@,
        AuthError::Other(m).text() == "Other error: "@ + m,
        CoordinationError::Auth(a).text() == "Auth error: "@ + a.text(),
        CoordinationError::Config(e).text() == "Config error: "@ + e.text(),
        CoordinationError::Io(m).text() == "IO error: "@ + m,
        CoordinationError::<Seq<char>>::Timeout.text() == "Coordination timeout"@,
        CoordinationError::Other(m).text() == "Coordination error: "@ + m,
{
}

/// A request succeeded if and only if its status is one of the two hundreds; one that did not
/// is told of with what was asked, the status, and the text of the answer, if it was read.
pub proof fn failed_requests_are_told_of(what: Seq<char>, code: u16, text: Seq<char>)
    ensures
        is_success(code) <==> code / 100 == 2,
        failed_request(what, code, Some(text)) == what + ": "@ + status_text(code) + " - "@ + text,
        failed_request(what, code, None) == failed_request(what, code, Some("Unknown error"@)),
{
}

// ---------------------------------------------------------------- the client

/// A URL is that of a server if and only if it parses and its scheme begins with `http`.
pub proof fn server_url_is_one_of_http(parts: UrlParts<Seq<char>>, rest: Seq<char>, m: Seq<char>)
    ensures
        server_url_error(rest) == parsed_url_error(url_parse(rest)),
        parsed_url_error(Err(m)) == Some(AuthError::Url(m)),
        parts.scheme == "http"@ + rest ==> parsed_url_error(Ok(parts)) is None,
        parsed_url_error(Ok(parts)) matches Some(e) ==> e == AuthError::<
            Seq<char>,
        >::InvalidServerUrl && !"http"@.is_prefix_of(parts.scheme),
        parsed_url_error(Ok(parts)) is None ==> parts.scheme.len() >= 4 && parts.scheme.subrange(
            0,
            4,
        ) == "http"@,
{
    reveal_strlit("http");
    if parts.scheme == "http"@ + rest {
        assert(parts.scheme.subrange(0, 4) =~= "http"@);
    }
}

/// A new client is that of its server, keeps its files under the hash of the server's URL, and
/// has neither a state, nor a registration, nor a configuration.
pub proof fn new_client_has_done_nothing(
    server_url: Seq<char>,
    redirect_port: u16,
    files: ConfigManager<Seq<char>>,
    session_id: Seq<char>,
)
    ensures
        ({
            let client = AuthClient::fresh(server_url, redirect_port, files, session_id);
            &&& client.server_url == server_url
            &&& client.server_url_hash == url_hash(server_url)
            &&& client.config_manager == files
            &&& client.session_id == session_id
            &&& client.redirect_port == redirect_port
            &&& client.auth_state is None
            &&& client.client_registration is None
            &&& client.oidc_config_cache.config is None
            &&& client.oidc_config_cache.last_updated is None
            &&& client.oidc_config_cache.ttl == 3600
        }),
{
}

/// Clearing the caches of a client forgets what was discovered and registered, and nothing
/// else.
pub proof fn clearing_forgets_only_the_caches(client: AuthClient<Seq<char>>)
    ensures
        ({
            let cleared = client.without_caches();
            &&& cleared.client_registration is None
            &&& cleared.oidc_config_cache.config is None
            &&& cleared.oidc_config_cache.last_updated is None
            &&& cleared.oidc_config_cache.ttl == 3600
            &&& cleared.server_url == client.server_url
            &&& cleared.server_url_hash == client.server_url_hash
            &&& cleared.config_manager == client.config_manager
            &&& cleared.session_id == client.session_id
            &&& cleared.redirect_port == client.redirect_port
            &&& cleared.auth_state == client.auth_state
        }),
{
}

/// The user is sent back to the client's own port on this machine; so clients on different
/// ports have different redirect URLs.
pub proof fn redirect_url_names_the_port(a: AuthClient<Seq<char>>, b: AuthClient<Seq<char>>)
    ensures
        a.redirect_url() == "http://127.0.0.1:"@ + decimal_text(a.redirect_port as nat)
            + "/oauth/callback"@,
        a.redirect_port != b.redirect_port ==> a.redirect_url() != b.redirect_url(),
{
    reveal_strlit("http://");
    reveal_strlit("127.0.0.1");
    reveal_strlit(":");
    reveal_strlit("http://127.0.0.1:");
    reveal_strlit("/oauth/callback");
    assert("http://"@ + "127.0.0.1"@ + ":"@ =~= "http://127.0.0.1:"@);
    different_numbers_are_written_differently(a.redirect_port as nat, b.redirect_port as nat);
    let (x, y) = (decimal_text(a.redirect_port as nat), decimal_text(b.redirect_port as nat));
    assert(a.redirect_url() =~= "http://127.0.0.1:"@ + x + "/oauth/callback"@);
    assert(b.redirect_url() =~= "http://127.0.0.1:"@ + y + "/oauth/callback"@);
    if a.redirect_url() == b.redirect_url() {
        lemma_same_middle("http://127.0.0.1:"@, x, y, "/oauth/callback"@);
    }
}

/// What stands between two fixed texts is determined by the whole.
pub(crate) proof fn lemma_same_middle(
    before: Seq<char>,
    a: Seq<char>,
    b: Seq<char>,
    after: Seq<char>,
)
    requires
        before + a + after == before + b + after,
    ensures
        a == b,
{
    let (x, y) = (before + a + after, before + b + after);
    assert(x.len() == before.len() + a.len() + after.len());
    assert(y.len() == before.len() + b.len() + after.len());
    assert(a =~= x.subrange(before.len() as int, (before.len() + a.len()) as int));
    assert(b =~= y.subrange(before.len() as int, (before.len() + b.len()) as int));
}

// ---------------------------------------------------------------- where it is asked

/// The authorization server of a URL is asked at its scheme and host, and at its port unless
/// that is 80 for `http` or 443 for `https`; without a host there is none.
pub proof fn server_is_asked_at_its_port(scheme: Seq<char>, host: Seq<char>, port: u16)
    ensures
        ({
            let path = "/.well-known/oauth-authorization-server"@;
            let at_port = well_known(UrlParts { scheme, host: Some(host), port: Some(port) });
            let default = (scheme == "http"@ && port == 80) || (scheme == "https"@ && port == 443);
            &&& !default ==> at_port == Some(
                scheme + "://"@ + host + ":"@ + decimal_text(port as nat) + path,
            )
            &&& default ==> at_port == Some(scheme + "://"@ + host + path)
            &&& well_known(UrlParts { scheme, host: Some(host), port: None }) == Some(
                scheme + "://"@ + host + path,
            )
            &&& well_known(UrlParts { scheme, host: None, port: Some(port) }) is None
            &&& well_known(UrlParts { scheme, host: None, port: None }) is None
        }),
{
}

/// Servers of one host on different ports are asked at different URLs, and so are those on
/// another port than the default one.
pub proof fn ports_are_told_apart(scheme: Seq<char>, host: Seq<char>, a: u16, b: u16)
    requires
        a != b,
        !(scheme == "http"@ && a == 80) && !(scheme == "https"@ && a == 443),
    ensures
        well_known(UrlParts { scheme, host: Some(host), port: Some(a) }) != well_known(
            UrlParts { scheme, host: Some(host), port: Some(b) },
        ),
        well_known(UrlParts { scheme, host: Some(host), port: Some(a) }) != well_known(
            UrlParts { scheme, host: Some(host), port: None },
        ),
{
    reveal_strlit(":");
    let path = "/.well-known/oauth-authorization-server"@;
    let before = scheme + "://"@ + host;
    let (x, y) = (":"@ + decimal_text(a as nat), ":"@ + decimal_text(b as nat));
    different_numbers_are_written_differently(a as nat, b as nat);
    assert(before + ":"@ + decimal_text(a as nat) + path =~= before + x + path);
    assert(before + ":"@ + decimal_text(b as nat) + path =~= before + y + path);
    assert(before + path =~= before + Seq::<char>::empty() + path);
    if before + x + path == before + y + path {
        lemma_same_middle(before, x, y, path);
        assert(x.skip(1) =~= decimal_text(a as nat));
        assert(y.skip(1) =~= decimal_text(b as nat));
    }
    if before + x + path == before + Seq::<char>::empty() + path {
        lemma_same_middle(before, x, Seq::empty(), path);
    }
}

/// A discovery begins with a request to the well-known URL of the client's own server, or, where
/// that has none, with the reason; unless the client has a configuration that it got less than
/// an hour before.
pub proof fn discovery_asks_the_clients_server(
    client: AuthClient<Seq<char>>,
    parts: UrlParts<Seq<char>>,
    m: Seq<char>,
    now: i128,
)
    requires
        client.oidc_config_cache.ttl == 3600,
    ensures
        ({
            let cache = client.oidc_config_cache;
            let usable = cache.config is Some && (cache.last_updated matches Some(at) && at <= now
                && now < at + 3_600_000_000_000);
            &&& usable ==> client.discovering_at(Ok(parts), now) == DiscoverStep::<Seq<char>>::Done(
                Ok(cache.config->0),
            ) && client.discovering_at(Err(m), now) == DiscoverStep::<Seq<char>>::Done(
                Ok(cache.config->0),
            )
            &&& !usable ==> client.discovering_at(Err(m), now) == DiscoverStep::<Seq<char>>::Done(
                Err(AuthError::Url(m)),
            )
            &&& !usable && parts.host is None ==> client.discovering_at(Ok(parts), now)
                == DiscoverStep::<Seq<char>>::Done(Err(AuthError::InvalidServerUrl))
            &&& !usable && parts.host is Some ==> (client.discovering_at(Ok(parts), now)
                matches DiscoverStep::Fetch { url } && well_known(parts) == Some(url))
            &&& client.discovering(now) == client.discovering_at(url_parse(client.server_url), now)
        }),
{
}

/// What comes of a discovery: a request that fails, or is answered with another status than
/// success, ends it with the reason; and a body ends it with the configuration in it, which the
/// client then keeps with the time, or with the reason why there is none. Nothing else of the
/// client changes.
pub proof fn discovery_comes_to_what_was_answered(
    client: AuthClient<Seq<char>>,
    url: Seq<char>,
    m: Seq<char>,
    code: u16,
    text: Option<Seq<char>>,
    body: Seq<u8>,
    now: i128,
)
    ensures
        ({
            let fetch = DiscoverStep::Fetch { url };
            let sent = client.discover_after(fetch, DiscoverEvent::Sent(Ok(code)));
            let read = client.discover_after(
                DiscoverStep::ReadBody,
                DiscoverEvent::Body { body: Ok(body), now },
            );
            &&& client.discover_after(fetch, DiscoverEvent::Sent(Err(m))) == (
                client,
                DiscoverStep::<Seq<char>>::Done(Err(AuthError::Http(m))),
            )
            &&& sent.0 == client
            &&& 200 <= code <= 299 ==> sent.1 is ReadBody
            &&& !(200 <= code <= 299) ==> sent.1 == (DiscoverStep::<Seq<char>>::ReadError { code })
            &&& client.discover_after(
                DiscoverStep::ReadError { code },
                DiscoverEvent::ErrorText(text),
            ) == (
                client,
                DiscoverStep::<Seq<char>>::Done(
                    Err(
                        AuthError::Other(
                            "Failed to get OpenID configuration"@ + ": "@ + status_text(code)
                                + " - "@ + if text is Some {
                                text->0
                            } else {
                                "Unknown error"@
                            },
                        ),
                    ),
                ),
            )
            &&& client.discover_after(
                DiscoverStep::ReadBody,
                DiscoverEvent::Body { body: Err(m), now },
            ) == (client, DiscoverStep::<Seq<char>>::Done(Err(AuthError::Http(m))))
            &&& read.1 == DiscoverStep::<Seq<char>>::Done(config_in(body))
            &&& config_in(body) is Err ==> read.0 == client
            &&& config_in(body) matches Ok(config) ==> read.0.oidc_config_cache.config == Some(
                config,
            ) && read.0.oidc_config_cache.last_updated == Some(now) && read.0.oidc_config_cache.ttl
                == client.oidc_config_cache.ttl && read.0.auth_state == client.auth_state
                && read.0.client_registration == client.client_registration
        }),
{
}

/// What happens to a step of a discovery that the event is not about: nothing.
pub proof fn discovery_waits_for_its_answers(
    client: AuthClient<Seq<char>>,
    step: DiscoverStep<Seq<char>>,
    event: DiscoverEvent<Seq<char>, Seq<u8>>,
)
    ensures
        client.discover_after(step, event) != (client, step) ==> match step {
            DiscoverStep::Fetch { .. } => event is Sent,
            DiscoverStep::ReadError { .. } => event is ErrorText,
            DiscoverStep::ReadBody => event is Body,
            DiscoverStep::Done(_) => false,
        },
{
}

// ---------------------------------------------------------------- what it answers

/// Whether some item of a list is a string.
pub open spec fn holds_a_string(items: Seq<Option<Seq<char>>>) -> bool {
    exists|i: int| 0 <= i < items.len() && (#[trigger] items[i]) is Some
}

/// How many items of a list are strings.
pub open spec fn strings_in(items: Seq<Option<Seq<char>>>) -> int
    decreases items.len(),
{
    if items.len() == 0 {
        0
    } else {
        strings_in(items.drop_last()) + if items.last() is Some {
            1int
        } else {
            0int
        }
    }
}

/// How many characters the strings of a list have together.
pub open spec fn characters_in(items: Seq<Option<Seq<char>>>) -> int
    decreases items.len(),
{
    if items.len() == 0 {
        0
    } else {
        characters_in(items.drop_last()) + match items.last() {
            Some(t) => t.len() as int,
            None => 0int,
        }
    }
}

proof fn lemma_strings_in(items: Seq<Option<Seq<char>>>)
    ensures
        strings_in(items) >= 0,
        strings_in(items) > 0 <==> holds_a_string(items),
    decreases items.len(),
{
    if items.len() > 0 {
        let before = items.drop_last();
        lemma_strings_in(before);
        if holds_a_string(before) {
            let i = choose|i: int| 0 <= i < before.len() && (#[trigger] before[i]) is Some;
            assert(items[i] is Some);
        }
        if items.last() is Some {
            assert(items[items.len() - 1] is Some);
        }
        if holds_a_string(items) && items.last() is None {
            let i = choose|i: int| 0 <= i < items.len() && (#[trigger] items[i]) is Some;
            assert(before[i] is Some);
        }
    }
}

/// Scopes are joined one by one: another string follows what was joined before, behind a space
/// where anything was; what is no string changes nothing.
pub proof fn scopes_follow_each_other(items: Seq<Option<Seq<char>>>, t: Seq<char>)
    ensures
        joined_scopes(Seq::empty()) == Seq::<char>::empty(),
        joined_scopes(items.push(None)) == joined_scopes(items),
        holds_a_string(items) ==> joined_scopes(items.push(Some(t))) == joined_scopes(items) + " "@
            + t,
        !holds_a_string(items) ==> joined_scopes(items.push(Some(t))) == t,
{
    assert(items.push(None).drop_last() =~= items);
    assert(items.push(Some(t)).drop_last() =~= items);
}

/// No scope is lost, and nothing but one space between neighbours is added: every string of the
/// list occurs in the joined scopes, and these are as long as the strings and the spaces
/// together.
pub proof fn every_scope_is_asked_for(items: Seq<Option<Seq<char>>>, at: int)
    ensures
        strings_in(items) > 0 ==> joined_scopes(items).len() == characters_in(items) + strings_in(
            items,
        ) - 1,
        strings_in(items) == 0 ==> joined_scopes(items).len() == 0,
        0 <= at < items.len() && items[at] is Some ==> contains_text(
            joined_scopes(items),
            items[at]->0,
        ),
    decreases items.len(),
{
    lemma_strings_in(items);
    if items.len() > 0 {
        let before = items.drop_last();
        lemma_strings_in(before);
        every_scope_is_asked_for(before, at);
        assert(before.push(items.last()) =~= items);
        reveal_strlit(" ");
        match items.last() {
            None => {
                scopes_follow_each_other(before, Seq::empty());
                lemma_no_strings(before);
            },
            Some(t) => {
                scopes_follow_each_other(before, t);
                lemma_no_strings(before);
                let all = joined_scopes(items);
                if at == items.len() - 1 {
                    assert(all.subrange(all.len() - t.len(), all.len() as int) =~= t);
                    assert(occurs_at(all, t, all.len() - t.len()));
                }
            },
        }
        if 0 <= at < before.len() && items[at] is Some {
            assert(before[at] == items[at]);
            let s = items[at]->0;
            let part = joined_scopes(before);
            let i = choose|i: int| #[trigger] occurs_at(part, s, i);
            let all = joined_scopes(items);
            assert(all.subrange(i, i + s.len()) =~= part.subrange(i, i + s.len()));
            assert(occurs_at(all, s, i));
        }
    }
}

proof fn lemma_no_strings(items: Seq<Option<Seq<char>>>)
    ensures
        strings_in(items) == 0 ==> characters_in(items) == 0 && joined_scopes(items).len() == 0,
    decreases items.len(),
{
    lemma_strings_in(items);
    if items.len() > 0 {
        lemma_no_strings(items.drop_last());
        lemma_strings_in(items.drop_last());
    }
}

/// The scopes of two lists of strings, one behind the other, are those of the first, a space, and
/// those of the second.
pub proof fn lists_of_scopes_are_joined(a: Seq<Option<Seq<char>>>, b: Seq<Option<Seq<char>>>)
    requires
        holds_a_string(a),
    ensures
        holds_a_string(b) ==> joined_scopes(a + b) == joined_scopes(a) + " "@ + joined_scopes(b),
        !holds_a_string(b) ==> joined_scopes(a + b) == joined_scopes(a),
    decreases b.len(),
{
    if b.len() == 0 {
        assert(a + b =~= a);
    } else {
        let before = b.drop_last();
        lists_of_scopes_are_joined(a, before);
        lemma_strings_in(b);
        lemma_strings_in(before);
        assert(a + b =~= (a + before).push(b.last()));
        assert(before.push(b.last()) =~= b);
        let i = choose|i: int| 0 <= i < a.len() && (#[trigger] a[i]) is Some;
        assert((a + before)[i] is Some);
        match b.last() {
            None => {
                scopes_follow_each_other(a + before, Seq::empty());
                scopes_follow_each_other(before, Seq::empty());
            },
            Some(t) => {
                scopes_follow_each_other(a + before, t);
                scopes_follow_each_other(before, t);
                assert(joined_scopes(a + b) =~= joined_scopes(a) + " "@ + joined_scopes(b));
            },
        }
    }
}

/// A member of an object under a key.
pub open spec fn has_member(
    object: Map<Seq<char>, JsonMember<Seq<char>, Seq<Option<Seq<char>>>>>,
    key: Seq<char>,
    member: JsonMember<Seq<char>, Seq<Option<Seq<char>>>>,
) -> bool {
    object.contains_key(key) && object[key] == member
}

/// A field is read as it stands: a string as its text, what is missing as missing, and anything
/// else as something else; scopes are read from lists alone.
pub proof fn fields_are_read_as_they_stand(
    member: JsonMember<Seq<char>, Seq<Option<Seq<char>>>>,
    t: Seq<char>,
    items: Seq<Option<Seq<char>>>,
)
    ensures
        field_of(member) == Field::Text(t) <==> member == JsonMember::<
            Seq<char>,
            Seq<Option<Seq<char>>>,
        >::Text(t),
        field_of(member) is Absent <==> member is Absent,
        scopes_of(JsonMember::List(items)) == Some(joined_scopes(items)),
        !(member is List) ==> scopes_of(member) is None,
{
}

/// A configuration is read from the members of these names, each from its own.
pub proof fn configuration_is_read_by_name(
    object: Map<Seq<char>, JsonMember<Seq<char>, Seq<Option<Seq<char>>>>>,
    t: Seq<char>,
    items: Seq<Option<Seq<char>>>,
)
    ensures
        ({
            let config = config_of(object);
            &&& config.authorization_endpoint == Field::Text(t) <==> has_member(
                object,
                "authorization_endpoint"@,
                JsonMember::Text(t),
            )
            &&& config.token_endpoint == Field::Text(t) <==> has_member(
                object,
                "token_endpoint"@,
                JsonMember::Text(t),
            )
            &&& config.issuer == Field::Text(t) <==> has_member(
                object,
                "issuer"@,
                JsonMember::Text(t),
            )
            &&& config.registration_endpoint == Field::Text(t) <==> has_member(
                object,
                "registration_endpoint"@,
                JsonMember::Text(t),
            )
            &&& has_member(object, "scopes_supported"@, JsonMember::List(items))
                ==> config.scopes_supported == Some(joined_scopes(items))
            &&& !object.contains_key("scopes_supported"@) ==> config.scopes_supported is None
            &&& !object.contains_key("authorization_endpoint"@)
                ==> config.authorization_endpoint is Absent
            &&& !object.contains_key("token_endpoint"@) ==> config.token_endpoint is Absent
            &&& !object.contains_key("issuer"@) ==> config.issuer is Absent
            &&& !object.contains_key("registration_endpoint"@)
                ==> config.registration_endpoint is Absent
        }),
{
}

/// A configuration without one of the three required fields is refused with the name of the
/// first that is missing, and any other is taken as it is.
pub proof fn configuration_needs_its_required_fields(config: OidcConfig<Seq<char>>)
    ensures
        checked_config(config) is Ok <==> !(config.authorization_endpoint is Absent) && !(
        config.token_endpoint is Absent) && !(config.issuer is Absent),
        checked_config(config) matches Ok(c) ==> c == config,
        checked_config(config) matches Err(e) ==> e == AuthError::Other(
            "OIDC configuration missing required field: "@ + if config.authorization_endpoint
                is Absent {
                "authorization_endpoint"@
            } else if config.token_endpoint is Absent {
                "token_endpoint"@
            } else {
                "issuer"@
            },
        ),
{
}

/// A body that is no JSON is refused as one that cannot be decoded; of one that is, the
/// configuration is that of its members.
pub proof fn body_is_read_as_json(body: Seq<u8>)
    ensures
        json_object(body) is None ==> config_in(body) == Err::<
            OidcConfig<Seq<char>>,
            AuthError<Seq<char>>,
        >(AuthError::Http("error decoding response body"@)),
        json_object(body) matches Some(object) ==> config_in(body) == checked_config(
            config_of(object),
        ),
{
}

// ---------------------------------------------------------------- where the user is sent

/// An authorization has five parameters, in this order: where the user is sent back to, the
/// state, the kind of the answer, the client and the scopes.
pub proof fn authorization_has_its_parameters(
    redirect_url: Seq<char>,
    state: Seq<char>,
    client_id: Seq<char>,
    scopes: Seq<char>,
)
    ensures
        ({
            let pairs = authorization_pairs(redirect_url, state, client_id, scopes);
            &&& pairs.len() == 5
            &&& pairs[0] == ("redirect_uri"@, redirect_url)
            &&& pairs[1] == ("state"@, state)
            &&& pairs[2] == ("response_type"@, "code"@)
            &&& pairs[3] == ("client_id"@, client_id)
            &&& pairs[4] == ("scope"@, scopes)
        }),
{
}

/// The scopes that are asked for are those that the server supports, or the usual three where it
/// does not say.
pub proof fn supported_scopes_are_asked_for(config: OidcConfig<Seq<char>>)
    ensures
        config.scopes_supported is Some ==> requested_scopes(config) == config.scopes_supported->0,
        config.scopes_supported is None ==> requested_scopes(config) == "openid profile email"@,
{
}

/// A user is sent to the authorization endpoint with the state, the redirect URL, the registered
/// client and the scopes in its query; and what went wrong on the way comes out as it is.
pub proof fn user_is_sent_to_the_endpoint(
    client: AuthClient<Seq<char>>,
    state: Seq<char>,
    config: OidcConfig<Seq<char>>,
    endpoint: Seq<char>,
    registration: ClientRegistration<Seq<char>>,
    e: AuthError<Seq<char>>,
)
    requires
        config.authorization_endpoint == Field::Text(endpoint),
    ensures
        ({
            let first = client.initializing(state);
            let second = first.after(InitializeEvent::Discovered(Ok(config)));
            let last = second.after(InitializeEvent::Registered(Ok(registration)));
            let scopes = if config.scopes_supported is Some {
                config.scopes_supported->0
            } else {
                "openid profile email"@
            };
            let pairs = seq![
                ("redirect_uri"@, client.redirect_url()),
                ("state"@, state),
                ("response_type"@, "code"@),
                ("client_id"@, registration.client_id),
                ("scope"@, scopes),
            ];
            &&& client.awaiting(state).auth_state == Some(state)
            &&& client.awaiting(state).server_url == client.server_url
            &&& client.awaiting(state).client_registration == client.client_registration
            &&& client.awaiting(state).oidc_config_cache == client.oidc_config_cache
            &&& second is Register
            &&& second.fits(InitializeEvent::Registered(Ok(registration))) <==> url_size(
                endpoint,
                pairs,
            ) <= 4_294_967_295
            &&& url_parse(endpoint) is Ok ==> last == InitializeStep::<Seq<char>>::Done(
                Ok(url_query_appended(endpoint, pairs)),
            )
            &&& url_parse(endpoint) matches Err(m) ==> last == InitializeStep::<Seq<char>>::Done(
                Err(AuthError::Url(m)),
            )
            &&& first.after(InitializeEvent::Discovered(Err(e))) == InitializeStep::<
                Seq<char>,
            >::Done(Err(e))
            &&& second.after(InitializeEvent::Registered(Err(e))) == InitializeStep::<
                Seq<char>,
            >::Done(Err(e))
        }),
{
}

/// Without an authorization endpoint that is a text nobody is sent anywhere.
pub proof fn authorization_needs_an_endpoint(
    state: Seq<char>,
    redirect_url: Seq<char>,
    config: OidcConfig<Seq<char>>,
)
    requires
        !(config.authorization_endpoint is Text),
    ensures
        (InitializeStep::Discover { state, redirect_url }).after(
            InitializeEvent::Discovered(Ok(config)),
        ) == InitializeStep::<Seq<char>>::Done(
            Err(AuthError::Other("No authorization_endpoint in OIDC configuration"@)),
        ),
{
}

/// What happens to a step of an authorization that the event is not about: nothing.
pub proof fn authorization_waits_for_its_answers(
    step: InitializeStep<Seq<char>>,
    event: InitializeEvent<Seq<char>>,
)
    ensures
        step.after(event) != step ==> match step {
            InitializeStep::Discover { .. } => event is Discovered,
            InitializeStep::Register { .. } => event is Registered,
            InitializeStep::Done(_) => false,
        },
        !(step is Register && event is Registered) ==> step.fits(event),
{
}

} // verus!
