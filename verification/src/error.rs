//! The error that a route hands back: an HTTP status, a chain of messages
//! (outermost context first) and the kind of error at its root.

use vstd::prelude::*;

use crate::status::StatusCode;
use crate::text::{json_string, to_json_string};

verus! {

/// The kind of error at the root of a [`RouteError`].
#[derive(Clone, Copy, Debug, PartialEq, Eq, Structural)]
pub enum ErrorSource {
    /// An error made from a message alone.
    Message,
    /// An input/output error.
    Io,
    /// A missing or unreadable environment variable.
    Env,
    /// An error of the database.
    Database,
    /// An error while encoding or decoding a token.
    Jwt,
    /// A background task that did not complete.
    Join,
}

/// An error of another library, held as its kind and the text its `Display` gives.
#[derive(Debug)]
pub struct ForeignError {
    pub source: ErrorSource,
    pub text: String,
}

impl ForeignError {
    /// An error of the given kind with the given text.
    pub fn new(source: ErrorSource, text: &str) -> (e: ForeignError)
        ensures
            e.source == source,
            e.text@ == text@,
    {
        ForeignError { source, text: text.to_string() }
    }
}

/// The abstract value of a [`RouteError`].
pub struct RouteErrorView {
    pub status: u16,
    /// Outermost context first; never empty.
    pub messages: Seq<Seq<char>>,
    pub source: ErrorSource,
}

/// The error type of every route.
#[derive(Debug)]
pub struct RouteError {
    status: StatusCode,
    messages: Vec<String>,
    source: ErrorSource,
}

/// The result type of every route.
pub type RouteResult<T> = Result<T, RouteError>;

/// The views of a sequence of strings.
pub open spec fn strings_view(v: Seq<String>) -> Seq<Seq<char>> {
    v.map_values(|s: String| s@)
}

/// The view of an error with the given status, messages and root kind.
pub open spec fn route_error_view(status: u16, messages: Seq<Seq<char>>, source: ErrorSource) -> RouteErrorView {
    RouteErrorView { status, messages, source }
}

impl View for RouteError {
    type V = RouteErrorView;

    closed spec fn view(&self) -> RouteErrorView {
        RouteErrorView {
            status: self.status@,
            messages: strings_view(self.messages@),
            source: self.source,
        }
    }
}

/// The text that `Display` shows for an error: its outermost message.
pub open spec fn display_of(e: RouteErrorView) -> Seq<char> {
    e.messages[0]
}

/// The view of an error made from a foreign error by `From`: status 500,
/// the foreign error's text as the only message.
pub open spec fn from_foreign_view(e: ForeignError) -> RouteErrorView {
    route_error_view(500, seq![e.text@], e.source)
}

/// The view of an error with one message and the given status.
pub open spec fn message_view(status: u16, message: Seq<char>) -> RouteErrorView {
    route_error_view(status, seq![message], ErrorSource::Message)
}

/// The view after a context message is put around an error.
pub open spec fn context_view(e: RouteErrorView, context: Seq<char>) -> RouteErrorView {
    route_error_view(e.status, seq![context] + e.messages, e.source)
}

/// The view after the status of an error is replaced.
pub open spec fn with_status_view(e: RouteErrorView, status: u16) -> RouteErrorView {
    route_error_view(status, e.messages, e.source)
}

/// Whether an error holds an error of the given kind: its root is of that
/// kind, or the kind is [`ErrorSource::Message`] and a context message is
/// around the root.
pub open spec fn holds_kind(e: RouteErrorView, source: ErrorSource) -> bool {
    e.source == source || (source == ErrorSource::Message && e.messages.len() > 1)
}

/// The text of the error of the given kind that an error holds: the
/// outermost message for [`ErrorSource::Message`], the root otherwise.
pub open spec fn found_text(e: RouteErrorView, source: ErrorSource) -> Seq<char> {
    if source == ErrorSource::Message {
        e.messages[0]
    } else {
        e.messages.last()
    }
}

/// The JSON body of the response for an error, as `serde_json` writes the
/// object with the keys `ok` and `message` (keys sorted).
pub open spec fn response_body_of(e: RouteErrorView) -> Seq<char> {
    "{\"message\":"@ + json_string(display_of(e)) + ",\"ok\":false}"@
}

impl RouteError {
    #[verifier::type_invariant]
    spec fn has_message(self) -> bool {
        self.messages.len() >= 1
    }

    /// An error made from a message, with status 500.
    pub fn msg(message: &str) -> (e: RouteError)
        ensures
            e@ == message_view(500, message@),
    {
        let mut messages: Vec<String> = Vec::new();
        messages.push(message.to_string());
        let e = RouteError {
            status: StatusCode::internal_server_error(),
            messages,
            source: ErrorSource::Message,
        };
        proof {
            assert(strings_view(e.messages@) =~= seq![message@]);
        }
        e
    }

    /// An error made from a message, with the given status.
    pub fn with_status(message: &str, status: StatusCode) -> (e: RouteError)
        ensures
            e@ == message_view(status@, message@),
    {
        let mut e = RouteError::msg(message);
        e.set_status_code(status);
        e
    }

    /// The error that `From` makes of an error of another library: status 500.
    pub fn from_foreign(error: ForeignError) -> (e: RouteError)
        ensures
            e@ == from_foreign_view(error),
    {
        let mut messages: Vec<String> = Vec::new();
        let ForeignError { source, text } = error;
        let ghost text_view = text@;
        messages.push(text);
        let e = RouteError { status: StatusCode::internal_server_error(), messages, source };
        proof {
            assert(strings_view(e.messages@) =~= seq![text_view]);
        }
        e
    }

    /// Puts a context message around the error; the status and the root stay.
    pub fn context(self, context: &str) -> (e: RouteError)
        ensures
            e@ == context_view(self@, context@),
    {
        proof {
            use_type_invariant(&self);
        }
        let RouteError { status, messages, source } = self;
        let mut chain: Vec<String> = Vec::new();
        chain.push(context.to_string());
        let mut i: usize = 0;
        while i < messages.len()
            invariant
                i <= messages.len(),
                chain.len() == i + 1,
                chain@[0]@ == context@,
                forall|j: int| 1 <= j <= i ==> #[trigger] chain@[j]@ == messages@[j - 1]@,
            decreases messages.len() - i,
        {
            chain.push(messages[i].clone());
            i = i + 1;
        }
        let e = RouteError { status, messages: chain, source };
        proof {
            assert(strings_view(e.messages@) =~= seq![context@] + strings_view(messages@));
        }
        e
    }

    /// The status of the error.
    pub fn status_code(&self) -> (s: StatusCode)
        ensures
            s@ == self@.status,
    {
        self.status
    }

    /// Replaces the status of the error.
    pub fn set_status_code(&mut self, status: StatusCode)
        ensures
            final(self)@ == with_status_view(old(self)@, status@),
            final(self)@.status == status@,
            final(self)@.messages == old(self)@.messages,
            final(self)@.source == old(self)@.source,
    {
        proof {
            use_type_invariant(&*self);
        }
        self.status = status;
    }

    /// Whether an error of the given kind is in the error: its root, or, for
    /// [`ErrorSource::Message`], also any context message (contexts are
    /// messages too).
    pub fn is(&self, source: ErrorSource) -> (b: bool)
        ensures
            b == holds_kind(self@, source),
    {
        proof {
            use_type_invariant(self);
        }
        self.source == source || (source == ErrorSource::Message && self.messages.len() > 1)
    }

    /// The error of the given kind that the error holds, if any: for
    /// [`ErrorSource::Message`] the outermost message, for another kind the
    /// root error; the error itself otherwise.
    pub fn downcast(self, source: ErrorSource) -> (r: Result<ForeignError, RouteError>)
        ensures
            holds_kind(self@, source) ==> (r matches Ok(f) && f.source == source
                && f.text@ == found_text(self@, source)),
            !holds_kind(self@, source) ==> (r matches Err(e) && e@ == self@),
    {
        proof {
            use_type_invariant(&self);
        }
        if self.is(source) {
            let text = if source == ErrorSource::Message {
                self.messages[0].clone()
            } else {
                let n = self.messages.len();
                self.messages[n - 1].clone()
            };
            Ok(ForeignError { source, text })
        } else {
            Err(self)
        }
    }

    /// A copy of the error of the given kind that the error holds, if any.
    pub fn downcast_ref(&self, source: ErrorSource) -> (r: Option<ForeignError>)
        ensures
            holds_kind(self@, source) ==> (r matches Some(f) && f.source == source
                && f.text@ == found_text(self@, source)),
            !holds_kind(self@, source) ==> r is None,
    {
        proof {
            use_type_invariant(self);
        }
        if self.is(source) {
            let text = if source == ErrorSource::Message {
                self.messages[0].clone()
            } else {
                let n = self.messages.len();
                self.messages[n - 1].clone()
            };
            Some(ForeignError { source, text })
        } else {
            None
        }
    }

    /// The text that `Display` shows: the outermost message.
    pub fn to_string(&self) -> (text: String)
        ensures
            text@ == display_of(self@),
            self@.messages.len() >= 1,
    {
        proof {
            use_type_invariant(self);
        }
        self.messages[0].clone()
    }

    /// The JSON body of the response for this error:
    /// `{"message":<the displayed text>,"ok":false}`.
    pub fn response_body(&self) -> (body: String)
        ensures
            body@ == response_body_of(self@),
    {
        let text = self.to_string();
        let mut body = String::from_str("{\"message\":");
        let quoted = to_json_string(text.as_str());
        body.append(quoted.as_str());
        body.append(",\"ok\":false}");
        body
    }

    /// All messages, outermost context first.
    pub fn messages(&self) -> (m: Vec<String>)
        ensures
            strings_view(m@) == self@.messages,
    {
        self.messages.clone()
    }
}

/// The view of a route result: `Ok` carries the value itself.
pub open spec fn result_view<T>(r: Result<T, RouteError>) -> Result<T, RouteErrorView> {
    match r {
        Ok(v) => Ok(v),
        Err(e) => Err(e@),
    }
}

/// Status and context for results, as the routes use them: on a route
/// result they change the error; on a result of another library they first
/// make a route error of it.
pub trait RouteResultContext<T>: Sized {
    /// Gives the error, if any, the status `status`.
    fn status_code(self, status: StatusCode) -> Result<T, RouteError>;

    /// Puts the message `context` around the error, if any.
    fn context(self, context: &str) -> Result<T, RouteError>;

    /// Puts the message that `f` makes around the error, if any; `f` is
    /// called only on an error.
    fn with_context<F: FnOnce() -> String>(self, f: F) -> Result<T, RouteError>
        requires
            f.requires(()),
    ;
}

impl<T> RouteResultContext<T> for Result<T, RouteError> {
    fn status_code(self, status: StatusCode) -> (r: Result<T, RouteError>)
        ensures
            result_view(r) == match result_view(self) {
                Ok(v) => Ok(v),
                Err(e) => Err(with_status_view(e, status@)),
            },
    {
        match self {
            Ok(v) => Ok(v),
            Err(mut e) => {
                e.set_status_code(status);
                Err(e)
            },
        }
    }

    fn context(self, context: &str) -> (r: Result<T, RouteError>)
        ensures
            result_view(r) == match result_view(self) {
                Ok(v) => Ok(v),
                Err(e) => Err(context_view(e, context@)),
            },
    {
        match self {
            Ok(v) => Ok(v),
            Err(e) => Err(e.context(context)),
        }
    }

    fn with_context<F: FnOnce() -> String>(self, f: F) -> (r: Result<T, RouteError>)
        ensures
            self matches Ok(v) ==> r matches Ok(w) && w == v,
            self matches Err(e) ==> exists|c: String|
                call_ensures(f, (), c) && (r matches Err(e2) && e2@ == context_view(e@, c@)),
    {
        match self {
            Ok(v) => Ok(v),
            Err(e) => {
                let c = f();
                Err(e.context(c.as_str()))
            },
        }
    }
}

impl<T> RouteResultContext<T> for Result<T, ForeignError> {
    fn status_code(self, status: StatusCode) -> (r: Result<T, RouteError>)
        ensures
            result_view(r) == match self {
                Ok(v) => Ok(v),
                Err(e) => Err(with_status_view(from_foreign_view(e), status@)),
            },
    {
        match self {
            Ok(v) => Ok(v),
            Err(e) => {
                let mut e = RouteError::from_foreign(e);
                e.set_status_code(status);
                Err(e)
            },
        }
    }

    fn context(self, context: &str) -> (r: Result<T, RouteError>)
        ensures
            result_view(r) == match self {
                Ok(v) => Ok(v),
                Err(e) => Err(context_view(from_foreign_view(e), context@)),
            },
    {
        match self {
            Ok(v) => Ok(v),
            Err(e) => Err(RouteError::from_foreign(e).context(context)),
        }
    }

    fn with_context<F: FnOnce() -> String>(self, f: F) -> (r: Result<T, RouteError>)
        ensures
            self matches Ok(v) ==> r matches Ok(w) && w == v,
            self matches Err(e) ==> exists|c: String|
                call_ensures(f, (), c) && (r matches Err(e2)
                && e2@ == context_view(from_foreign_view(e), c@)),
    {
        match self {
            Ok(v) => Ok(v),
            Err(e) => {
                let c = f();
                Err(RouteError::from_foreign(e).context(c.as_str()))
            },
        }
    }
}

/// `Ok(())` when `condition` holds; otherwise an error with `message` and status 500.
pub fn ensure(condition: bool, message: &str) -> (r: Result<(), RouteError>)
    ensures
        condition ==> r is Ok,
        !condition ==> (r matches Err(e) && e@ == message_view(500, message@)),
{
    if condition {
        Ok(())
    } else {
        Err(RouteError::msg(message))
    }
}

/// `Ok(())` when `condition` holds; otherwise an error with `message` and `status`.
pub fn ensure_with_status(condition: bool, message: &str, status: StatusCode) -> (r: Result<(), RouteError>)
    ensures
        condition ==> r is Ok,
        !condition ==> (r matches Err(e) && e@ == message_view(status@, message@)),
{
    if condition {
        Ok(())
    } else {
        Err(RouteError::with_status(message, status))
    }
}

/// Giving an error of another library a status and then a context yields
/// the same route error as giving it the context first and the status after.
pub proof fn status_and_context_commute(e: ForeignError, status: u16, context: Seq<char>)
    ensures
        context_view(with_status_view(from_foreign_view(e), status), context)
            == with_status_view(context_view(from_foreign_view(e), context), status),
{
}

impl From<ForeignError> for RouteError {
    /// The error that `?` makes of an error of another library: status 500,
    /// its text as the only message.
    fn from(error: ForeignError) -> (e: RouteError)
        ensures
            e@ == from_foreign_view(error),
    {
        RouteError::from_foreign(error)
    }
}

impl vstd::std_specs::convert::FromSpecImpl<ForeignError> for RouteError {
    /// A route error is told by its view; `from` is stated over the view
    /// (its own `ensures`), not as equal to one chosen value.
    open spec fn obeys_from_spec() -> bool {
        false
    }

    open spec fn from_spec(v: ForeignError) -> RouteError {
        choose|e: RouteError| e@ == from_foreign_view(v)
    }
}

/// A context does not change the status of an error, and the text it
/// displays afterwards is the context itself.
pub proof fn context_keeps_status(e: RouteErrorView, context: Seq<char>)
    ensures
        context_view(e, context).status == e.status,
        context_view(e, context).source == e.source,
        display_of(context_view(e, context)) == context,
{
}

/// A context does not change the innermost message, the text of the root error.
pub proof fn context_keeps_root(e: RouteErrorView, context: Seq<char>)
    requires
        e.messages.len() >= 1,
    ensures
        context_view(e, context).messages.last() == e.messages.last(),
        context_view(e, context).messages.len() == e.messages.len() + 1,
{
}

/// The error that `From` makes of an error of another library gives that
/// error back when taken apart: its kind and its text.
pub proof fn from_foreign_keeps_root(e: ForeignError)
    ensures
        from_foreign_view(e).source == e.source,
        from_foreign_view(e).messages.last() == e.text@,
        display_of(from_foreign_view(e)) == e.text@,
{
}

/// Setting a status replaces the status, whatever it was before, and keeps
/// everything else: the new status is the one given.
pub proof fn status_is_replaced(e: RouteErrorView, status: u16)
    ensures
        with_status_view(e, status).status == status,
        with_status_view(with_status_view(e, 500), status).status == status,
        with_status_view(e, status) == (RouteErrorView { status, ..e }),
{
}

/// A new status does not change what the error displays nor its root.
pub proof fn status_keeps_messages(e: RouteErrorView, status: u16)
    ensures
        with_status_view(e, status).messages == e.messages,
        display_of(with_status_view(e, status)) == display_of(e),
        with_status_view(e, status).source == e.source,
{
}

} // verus!
