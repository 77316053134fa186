//! The errors that the service reports, and the ways a request can fail.

use vstd::prelude::*;

verus! {

/// One error reported by the service.
#[derive(Clone, Debug, PartialEq, Eq)]
pub struct ApiError {
    /// Opaque identifier of the error.
    pub id: String,
    /// Severity, as the service names it.
    pub level: String,
    /// Category of the error: the `type` member of the error body.
    pub error_type: String,
    /// Description for a human reader.
    pub message: String,
}

/// One reported error as plain character sequences.
pub struct ApiErrorView {
    pub id: Seq<char>,
    pub level: Seq<char>,
    pub error_type: Seq<char>,
    pub message: Seq<char>,
}

impl View for ApiError {
    type V = ApiErrorView;

    open spec fn view(&self) -> ApiErrorView {
        ApiErrorView {
            id: self.id@,
            level: self.level@,
            error_type: self.error_type@,
            message: self.message@,
        }
    }
}

/// The errors of one failed response, in the order the service listed them.
#[derive(Clone, Debug, PartialEq, Eq)]
pub struct ApiErrors {
    pub errors: Vec<ApiError>,
}

impl View for ApiErrors {
    type V = Seq<ApiErrorView>;

    open spec fn view(&self) -> Seq<ApiErrorView> {
        self.errors@.map_values(|e: ApiError| e@)
    }
}

/// Why a request did not end in a successful response.
#[derive(Clone, Debug, PartialEq, Eq)]
pub enum RequestError {
    /// The transport could not complete the round trip; the text is its
    /// account of why.
    Transport(String),
    /// The service answered with a failure status, and the body was not a
    /// list of errors; the text says what was wrong with it.
    Deserialization(String),
    /// The service answered with a failure status and these errors.
    Api(ApiErrors),
}

/// What `{:?}` prints for a string: the text between double quotes, with the
/// characters escaped that the standard library escapes.
pub uninterp spec fn debug_text(text: Seq<char>) -> Seq<char>;

/// Formats `text` with `{:?}`, which is `<str as Debug>::fmt` of the standard
/// library. Trusted, not proved: the result depends on the text alone, and
/// the contract only gives it the name `debug_text`.
#[verifier::external_body]
fn debug_quoted(text: &str) -> (quoted: String)
    ensures
        quoted@ == debug_text(text@),
{
    format!("{:?}", text)
}

/// One record of the rendering, around the four field texts as they are to
/// appear.
pub open spec fn record_text(
    id: Seq<char>,
    level: Seq<char>,
    error_type: Seq<char>,
    message: Seq<char>,
) -> Seq<char> {
    "ApiError { id: "@ + id + ", level: "@ + level + ", type: "@ + error_type + ", message: "@
        + message + " }"@
}

/// The items with `", "` between each two neighbours.
pub open spec fn comma_separated(items: Seq<Seq<char>>) -> Seq<char>
    decreases items.len(),
{
    if items.len() == 0 {
        Seq::empty()
    } else if items.len() == 1 {
        items[0]
    } else {
        comma_separated(items.drop_last()) + ", "@ + items.last()
    }
}

/// The items as a bracketed list.
pub open spec fn list_text(items: Seq<Seq<char>>) -> Seq<char> {
    "["@ + comma_separated(items) + "]"@
}

/// The texts of some strings.
pub open spec fn texts(items: Seq<String>) -> Seq<Seq<char>> {
    items.map_values(|s: String| s@)
}

impl ApiErrorView {
    /// The rendering of one error: its fields by name, each value quoted.
    pub open spec fn text(self) -> Seq<char> {
        record_text(
            debug_text(self.id),
            debug_text(self.level),
            debug_text(self.error_type),
            debug_text(self.message),
        )
    }
}

/// The rendering of a whole error list.
pub open spec fn errors_text(errors: Seq<ApiErrorView>) -> Seq<char> {
    "API error occurred, reasons: "@ + list_text(errors.map_values(|e: ApiErrorView| e.text()))
}

/// Lays out one record from field texts that are already quoted.
pub fn render_record(id: &str, level: &str, error_type: &str, message: &str) -> (text: String)
    ensures
        text@ == record_text(id@, level@, error_type@, message@),
{
    let mut text = "ApiError { id: ".to_owned();
    text.append(id);
    text.append(", level: ");
    text.append(level);
    text.append(", type: ");
    text.append(error_type);
    text.append(", message: ");
    text.append(message);
    text.append(" }");
    text
}

/// Lays out rendered items as a bracketed, comma-separated list.
pub fn render_list(items: &Vec<String>) -> (text: String)
    ensures
        text@ == list_text(texts(items@)),
{
    let mut text = "[".to_owned();
    let mut i: usize = 0;
    while i < items.len()
        invariant
            i <= items.len(),
            text@ == "["@ + comma_separated(texts(items@).take(i as int)),
        decreases items.len() - i,
    {
        let ghost before = texts(items@).take(i as int);
        let ghost after = texts(items@).take(i + 1);
        assert(after.drop_last() =~= before);
        assert(after.last() == items@[i as int]@);
        if i > 0 {
            text.append(", ");
        }
        text.append(items[i].as_str());
        assert(text@ =~= "["@ + comma_separated(after));
        i = i + 1;
    }
    assert(texts(items@).take(i as int) =~= texts(items@));
    text.append("]");
    text
}

impl ApiError {
    /// The error as one record: `ApiError { id: .., level: .., type: ..,
    /// message: .. }`, each value quoted as `{:?}` quotes a string.
    pub fn render(&self) -> (text: String)
        ensures
            text@ == self@.text(),
    {
        let id = debug_quoted(self.id.as_str());
        let level = debug_quoted(self.level.as_str());
        let error_type = debug_quoted(self.error_type.as_str());
        let message = debug_quoted(self.message.as_str());
        render_record(id.as_str(), level.as_str(), error_type.as_str(), message.as_str())
    }
}

impl RequestError {
    /// The message of this failure as a plain text.
    pub open spec fn text(self) -> Seq<char> {
        match self {
            RequestError::Transport(reason) => reason@,
            RequestError::Deserialization(reason) => reason@,
            RequestError::Api(errors) => errors_text(errors@),
        }
    }

    /// The message of the failure: the account that a transport or
    /// deserialization error carries, or the rendering of the API's errors.
    pub fn render(&self) -> (text: String)
        ensures
            text@ == self.text(),
    {
        match self {
            RequestError::Transport(reason) => reason.clone(),
            RequestError::Deserialization(reason) => reason.clone(),
            RequestError::Api(errors) => errors.render(),
        }
    }
}

impl ApiErrors {
    /// The message of the failure: `API error occurred, reasons: ` and the
    /// bracketed list of the errors, each rendered as a record.
    pub fn render(&self) -> (text: String)
        ensures
            text@ == errors_text(self@),
    {
        let mut records: Vec<String> = Vec::new();
        let mut i: usize = 0;
        while i < self.errors.len()
            invariant
                i <= self.errors.len(),
                records@.len() == i,
                forall|k: int| 0 <= k < i ==> (#[trigger] records@[k])@ == self.errors@[k]@.text(),
            decreases self.errors.len() - i,
        {
            records.push(self.errors[i].render());
            i = i + 1;
        }
        assert(texts(records@) =~= self@.map_values(|e: ApiErrorView| e.text()));
        let mut text = "API error occurred, reasons: ".to_owned();
        let list = render_list(&records);
        text.append(list.as_str());
        text
    }
}

} // verus!
