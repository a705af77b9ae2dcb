//! What the local server answers while an authentication is under way.
use vstd::prelude::*;
use vstd::string::*;

use crate::auth::AuthError;
use crate::config::AuthConfig;
use crate::text::{opt_view, result_view, same_text};

verus! {

/// The style sheet of every page.
pub const STYLE: &'static str =
    "<style>html{font-family: ui-sans-serif, system-ui, sans-serif, 'Apple Color Emoji', 'Segoe UI Emoji', 'Segoe UI Symbol', 'Noto Color Emoji'}</style>";

/// The query parameters of the OAuth callback.
#[derive(Debug)]
pub struct OAuthCallback<S = String> {
    pub code: Option<S>,
    pub state: S,
    pub error: Option<S>,
    pub error_description: Option<S>,
}

impl View for OAuthCallback {
    type V = OAuthCallback<Seq<char>>;

    open spec fn view(&self) -> OAuthCallback<Seq<char>> {
        OAuthCallback {
            code: opt_view(self.code),
            state: self.state@,
            error: opt_view(self.error),
            error_description: opt_view(self.error_description),
        }
    }
}

/// A page with this content.
pub open spec fn page_text(content: Seq<char>) -> Seq<char> {
    "<html>"@ + STYLE@ + "<body>"@ + content + "</body></html>"@
}

/// A page with this content.
fn page(content: &str) -> (r: String)
    ensures
        r@ == page_text(content@),
{
    "<html>".to_string().concat(STYLE).concat("<body>").concat(content).concat("</body></html>")
}

/// An answer: its status and its page.
#[derive(Debug)]
pub struct PageReply<S = String> {
    pub status: u16,
    pub page: S,
}

impl View for PageReply {
    type V = PageReply<Seq<char>>;

    open spec fn view(&self) -> PageReply<Seq<char>> {
        PageReply { status: self.status, page: self.page@ }
    }
}

/// The answer to a callback that carries an error.
pub open spec fn error_reply(error: Seq<char>, description: Option<Seq<char>>) -> PageReply<
    Seq<char>,
> {
    let shown = match description {
        Some(d) => d,
        None => "Unknown error"@,
    };
    let content = if error == "invalid_client"@ {
        "<h1>Authentication Error</h1>\n                    <p>Client registration error: "@ + shown
            + "</p>\n                    <p>Please restart the application to trigger client registration.</p>\n                    "@
    } else {
        "<h1>Authentication Error</h1><p>"@ + error + ": "@ + shown + "</p>"@
    };
    PageReply { status: 400, page: page_text(content) }
}

/// The answer to a callback that carries neither an error nor a code.
pub open spec fn missing_code_reply() -> PageReply<Seq<char>> {
    PageReply {
        status: 400,
        page: page_text(
            "<h1>Authentication Error</h1><p>Missing authorization code</p>"@,
        ),
    }
}

/// The answer to a callback whose code could not be exchanged.
pub open spec fn failure_reply(e: AuthError<Seq<char>>) -> PageReply<Seq<char>> {
    PageReply {
        status: 500,
        page: page_text("<h1>Authentication Error</h1><p>"@ + e.text() + "</p>"@),
    }
}

/// The answer to a callback whose tokens could not be passed on.
pub open spec fn undelivered_reply() -> PageReply<Seq<char>> {
    PageReply {
        status: 500,
        page: page_text("<h1>Error</h1><p>Internal server error</p>"@),
    }
}

/// The answer to a callback that ended the authentication.
pub open spec fn complete_reply() -> PageReply<Seq<char>> {
    PageReply {
        status: 200,
        page: page_text(
            "<h1>Authentication Complete</h1><p>You can close this window.</p>"@,
        ),
    }
}

/// What is to be done next to answer a callback.
#[derive(Debug)]
pub enum ReplyStep<S = String> {
    /// Exchange the code, if the state is that of the authorization under way.
    Handle { code: S, state: S },
    /// Pass the tokens on to who awaits them.
    Deliver { config: AuthConfig<S> },
    Done(PageReply<S>),
}

/// What came of such a step.
#[derive(Debug)]
pub enum ReplyEvent<S = String> {
    Handled(Result<AuthConfig<S>, AuthError<S>>),
    Delivered(bool),
}

impl View for ReplyStep {
    type V = ReplyStep<Seq<char>>;

    open spec fn view(&self) -> ReplyStep<Seq<char>> {
        match *self {
            ReplyStep::Handle { code, state } => ReplyStep::Handle { code: code@, state: state@ },
            ReplyStep::Deliver { config } => ReplyStep::Deliver { config: config@ },
            ReplyStep::Done(reply) => ReplyStep::Done(reply@),
        }
    }
}

impl View for ReplyEvent {
    type V = ReplyEvent<Seq<char>>;

    open spec fn view(&self) -> ReplyEvent<Seq<char>> {
        match *self {
            ReplyEvent::Handled(r) => ReplyEvent::Handled(result_view(r)),
            ReplyEvent::Delivered(b) => ReplyEvent::Delivered(b),
        }
    }
}

/// The first step of answering a callback.
pub open spec fn answering(params: OAuthCallback<Seq<char>>) -> ReplyStep<Seq<char>> {
    match params.error {
        Some(error) => ReplyStep::Done(error_reply(error, params.error_description)),
        None => match params.code {
            None => ReplyStep::Done(missing_code_reply()),
            Some(code) => ReplyStep::Handle { code, state: params.state },
        },
    }
}

impl ReplyStep<Seq<char>> {
    /// The step that follows an event.
    pub open spec fn after(self, event: ReplyEvent<Seq<char>>) -> Self {
        match (self, event) {
            (ReplyStep::Handle { code, state }, ReplyEvent::Handled(Ok(config))) => {
                ReplyStep::Deliver { config }
            },
            (ReplyStep::Handle { code, state }, ReplyEvent::Handled(Err(e))) => ReplyStep::Done(
                failure_reply(e),
            ),
            (ReplyStep::Deliver { config }, ReplyEvent::Delivered(delivered)) => ReplyStep::Done(
                if delivered {
                    complete_reply()
                } else {
                    undelivered_reply()
                },
            ),
            _ => self,
        }
    }
}

/// Answers the OAuth callback.
pub fn oauth_callback(params: OAuthCallback) -> (r: ReplyStep)
    ensures
        r@ == answering(params@),
{
    match params.error {
        Some(error) => {
            let shown: String = match params.error_description {
                Some(d) => d,
                None => "Unknown error".to_string(),
            };
            let content: String = if same_text(error.as_str(), "invalid_client") {
                "<h1>Authentication Error</h1>\n                    <p>Client registration error: ".to_string().concat(
                    shown.as_str(),
                ).concat(
                    "</p>\n                    <p>Please restart the application to trigger client registration.</p>\n                    ",
                )
            } else {
                "<h1>Authentication Error</h1><p>".to_string().concat(error.as_str()).concat(
                    ": ",
                ).concat(shown.as_str()).concat("</p>")
            };
            ReplyStep::Done(PageReply { status: 400, page: page(content.as_str()) })
        },
        None => match params.code {
            None => ReplyStep::Done(
                PageReply {
                    status: 400,
                    page: page("<h1>Authentication Error</h1><p>Missing authorization code</p>"),
                },
            ),
            Some(code) => ReplyStep::Handle { code, state: params.state },
        },
    }
}

impl ReplyStep {
    /// The step that follows an event.
    pub fn next(self, event: ReplyEvent) -> (r: Self)
        ensures
            r@ == self@.after(event@),
    {
        match (self, event) {
            (ReplyStep::Handle { code: _, state: _ }, ReplyEvent::Handled(handled)) => {
                match handled {
                    Ok(config) => ReplyStep::Deliver { config },
                    Err(e) => {
                        let content: String = "<h1>Authentication Error</h1><p>".to_string().concat(
                            e.message().as_str(),
                        ).concat("</p>");
                        ReplyStep::Done(PageReply { status: 500, page: page(content.as_str()) })
                    },
                }
            },
            (ReplyStep::Deliver { config: _ }, ReplyEvent::Delivered(delivered)) => {
                if delivered {
                    ReplyStep::Done(
                        PageReply {
                            status: 200,
                            page: page(
                                "<h1>Authentication Complete</h1><p>You can close this window.</p>",
                            ),
                        },
                    )
                } else {
                    ReplyStep::Done(
                        PageReply {
                            status: 500,
                            page: page("<h1>Error</h1><p>Internal server error</p>"),
                        },
                    )
                }
            },
            (step, _) => step,
        }
    }
}

/// The page at the root of the local server.
pub fn root_page() -> (r: String)
    ensures
        r@ == page_text(
            "<h1>MCP OAuth Server</h1><p>This server handles OAuth callbacks for MCP authentication.</p>"@,
        ),
{
    page(
        "<h1>MCP OAuth Server</h1><p>This server handles OAuth callbacks for MCP authentication.</p>",
    )
}

} // verus!
