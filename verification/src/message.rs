//! The exchange with the remote text generation service: what is asked of
//! it, and what is read from its answer.

use crate::diff::DiffSummary;
use crate::error::{
    api_failure, network_failure, no_candidate, response_malformed, AppError, ErrorView,
};
use crate::text::prefixed;
use vstd::prelude::*;

verus! {

/// The instruction that frames every request for a commit message.
pub const SYSTEM_INSTRUCTION: &'static str =
    "You are an expert Git commit message generator specialized in creating professional, concise, and meaningful commit messages following industry best practices.\n\
\n\
CONTEXT AND PURPOSE:\n\
- You analyze git diffs to understand code changes\n\
- You generate commit messages following the Conventional Commits specification\n\
- Your primary function is to create clear, actionable commit messages that help developers understand changes at a glance\n\
\n\
COMMIT MESSAGE RULES:\n\
1. Format: <type>(<scope>): <subject>\n\
2. Types: feat, fix, docs, style, refactor, test, chore, perf\n\
3. Subject: Imperative mood, lowercase, no period, max 50 characters\n\
4. Be specific and descriptive\n\
5. Focus on WHAT and WHY, not HOW\n\
\n\
EXAMPLES:\n\
- feat(auth): add JWT token validation\n\
- fix(api): resolve null pointer in user endpoint\n\
- refactor(database): optimize query performance\n\
- docs(readme): update installation instructions\n\
- style(components): format code with prettier\n\
\n\
ANALYSIS APPROACH:\n\
1. Identify modified files and their purpose\n\
2. Determine the type of change (feature, bug fix, etc.)\n\
3. Extract the main impact or goal\n\
4. Formulate a clear, concise message\n\
\n\
Always respond with ONLY the commit message, no explanations or additional text.";

/// What precedes the diff summary in the user's turn.
pub const COMMIT_PROMPT: &'static str =
    "Analyze these git changes and generate a commit message:\n\n";

/// The address of the service, up to where the credential follows.
pub const ENDPOINT: &'static str =
    "https://generativelanguage.googleapis.com/v1beta/models/gemini-2.0-flash-exp:generateContent?key=";

/// One piece of text in a turn.
#[derive(Debug, PartialEq, Eq)]
pub struct Part {
    pub text: String,
}

/// One turn: its pieces of text, in order.
#[derive(Debug, PartialEq, Eq)]
pub struct Content {
    pub parts: Vec<Part>,
}

/// A request: the system instruction and the turns of the conversation.
#[derive(Debug, PartialEq, Eq)]
pub struct GenerationRequest {
    pub contents: Vec<Content>,
    pub system_instruction: Content,
}

/// One proposed answer of the service.
#[derive(Debug, PartialEq, Eq)]
pub struct Candidate {
    pub content: Content,
}

/// The decoded answer of the service: its candidates, in order.
#[derive(Debug, PartialEq, Eq)]
pub struct GenerationResponse {
    pub candidates: Vec<Candidate>,
}

impl View for Part {
    type V = Seq<char>;

    open spec fn view(&self) -> Seq<char> {
        self.text@
    }
}

impl View for Content {
    type V = Seq<Seq<char>>;

    open spec fn view(&self) -> Seq<Seq<char>> {
        Seq::new(self.parts@.len(), |i: int| self.parts@[i]@)
    }
}

/// The mathematical value of a [`GenerationRequest`]: each turn is the
/// sequence of its texts.
pub struct RequestView {
    pub system_instruction: Seq<Seq<char>>,
    pub contents: Seq<Seq<Seq<char>>>,
}

impl View for GenerationRequest {
    type V = RequestView;

    open spec fn view(&self) -> RequestView {
        RequestView {
            system_instruction: self.system_instruction@,
            contents: Seq::new(self.contents@.len(), |i: int| self.contents@[i]@),
        }
    }
}

impl View for Candidate {
    type V = Seq<Seq<char>>;

    open spec fn view(&self) -> Seq<Seq<char>> {
        self.content@
    }
}

impl View for GenerationResponse {
    type V = Seq<Seq<Seq<char>>>;

    open spec fn view(&self) -> Seq<Seq<Seq<char>>> {
        Seq::new(self.candidates@.len(), |i: int| self.candidates@[i]@)
    }
}

/// The request with one system text and one user turn of one text.
pub open spec fn single_turn(system: Seq<char>, user: Seq<char>) -> RequestView {
    RequestView { system_instruction: seq![system], contents: seq![seq![user]] }
}

/// The request for a commit message for the forwarded text `summary`.
pub open spec fn commit_request(summary: Seq<char>) -> RequestView {
    single_turn(SYSTEM_INSTRUCTION@, COMMIT_PROMPT@ + summary)
}

/// The address to which a request goes for a given credential.
pub open spec fn endpoint(credential: Seq<char>) -> Seq<char> {
    ENDPOINT@ + credential
}

/// The status codes that mean success.
pub open spec fn success(status: u16) -> bool {
    200 <= status < 300
}

/// The text that is used of a decoded answer: the first text of the first
/// candidate, where there is one.
pub open spec fn first_text(response: Seq<Seq<Seq<char>>>) -> Option<Seq<char>> {
    if response.len() > 0 && response[0].len() > 0 {
        Some(response[0][0])
    } else {
        None
    }
}

impl Content {
    /// The turn that holds `text` and nothing else.
    pub fn single(text: String) -> (content: Content)
        ensures
            content@ == seq![text@],
    {
        let mut parts: Vec<Part> = Vec::new();
        parts.push(Part { text });
        let content = Content { parts };
        assert(content@ =~= seq![text@]);
        content
    }
}

impl GenerationRequest {
    /// The request that holds the system text `system` and one user turn, `user`.
    pub fn single_turn(system: &str, user: String) -> (request: GenerationRequest)
        ensures
            request@ == single_turn(system@, user@),
    {
        let mut contents: Vec<Content> = Vec::new();
        contents.push(Content::single(user));
        let request = GenerationRequest {
            contents,
            system_instruction: Content::single(String::from_str(system)),
        };
        assert(request@.contents =~= seq![seq![user@]]);
        request
    }

    /// The request for a commit message for the changes that `summary` describes.
    pub fn for_commit(summary: &DiffSummary) -> (request: GenerationRequest)
        ensures
            request@ == commit_request(summary@.stat + "\n\n"@ + summary@.body),
    {
        let text = summary.text();
        GenerationRequest::single_turn(SYSTEM_INSTRUCTION, prefixed(COMMIT_PROMPT, text.as_str()))
    }
}

impl GenerationResponse {
    /// The first text of the first candidate, as it came.
    pub fn first_text(&self) -> (text: Option<String>)
        ensures
            match text {
                Some(t) => first_text(self@) == Some(t@),
                None => first_text(self@) is None,
            },
    {
        if self.candidates.len() > 0 && self.candidates[0].content.parts.len() > 0 {
            Some(self.candidates[0].content.parts[0].text.clone())
        } else {
            None
        }
    }
}

/// The address to which a request goes for `credential`.
pub fn endpoint_url(credential: &str) -> (url: String)
    ensures
        url@ == endpoint(credential@),
{
    prefixed(ENDPOINT, credential)
}

/// Tells whether a status code means success.
pub fn is_success(status: u16) -> (ok: bool)
    ensures
        ok == success(status),
{
    200 <= status && status < 300
}

/// What came back for a request that was sent.
#[derive(Debug, PartialEq, Eq)]
pub enum HttpReply {
    /// Nothing: the request failed on the way, for the reason given.
    Unreachable(String),
    /// A response, with its status code and its body as text.
    Response { status: u16, body: String },
    /// A response whose body could not be read: its status code, and why
    /// the body could not be read.
    Unread { status: u16, why: String },
}

/// The mathematical value of an [`HttpReply`].
pub enum HttpReplyView {
    Unreachable(Seq<char>),
    Response { status: u16, body: Seq<char> },
    Unread { status: u16, why: Seq<char> },
}

impl View for HttpReply {
    type V = HttpReplyView;

    open spec fn view(&self) -> HttpReplyView {
        match self {
            HttpReply::Unreachable(why) => HttpReplyView::Unreachable(why@),
            HttpReply::Response { status, body } => HttpReplyView::Response {
                status: *status,
                body: body@,
            },
            HttpReply::Unread { status, why } => HttpReplyView::Unread {
                status: *status,
                why: why@,
            },
        }
    }
}

/// What a reply to the request for a commit message leads to: the body to
/// decode, where the status is a success; else the failure, which for a
/// status that is no success carries the body. A body that could not be
/// read cannot be decoded where the status is a success, and counts as
/// empty where it is none.
pub open spec fn reply_body(reply: HttpReplyView) -> Result<Seq<char>, ErrorView> {
    match reply {
        HttpReplyView::Unreachable(why) => Err(network_failure(why)),
        HttpReplyView::Response { status, body } => if success(status) {
            Ok(body)
        } else {
            Err(api_failure(body))
        },
        HttpReplyView::Unread { status, why } => if success(status) {
            Err(response_malformed(why))
        } else {
            Err(api_failure(Seq::empty()))
        },
    }
}

/// What the decoded body leads to: the text that the service proposes, as it
/// came, or the failure.
pub open spec fn proposal(decoded: Result<Seq<Seq<Seq<char>>>, Seq<char>>) -> Result<
    Seq<char>,
    ErrorView,
> {
    match decoded {
        Err(why) => Err(response_malformed(why)),
        Ok(response) => match first_text(response) {
            Some(text) => Ok(text),
            None => Err(no_candidate()),
        },
    }
}

/// The value of a text or a failure.
pub open spec fn text_view(result: Result<String, AppError>) -> Result<Seq<char>, ErrorView> {
    match result {
        Ok(text) => Ok(text@),
        Err(error) => Err(error@),
    }
}

/// The value of what decoding gave.
pub open spec fn decoded_view(decoded: Result<GenerationResponse, String>) -> Result<
    Seq<Seq<Seq<char>>>,
    Seq<char>,
> {
    match decoded {
        Ok(response) => Ok(response@),
        Err(why) => Err(why@),
    }
}

/// Takes in the reply to the request for a commit message: hands out the
/// body to decode, or the failure.
pub fn accept_reply(reply: HttpReply) -> (body: Result<String, AppError>)
    ensures
        text_view(body) == reply_body(reply@),
{
    match reply {
        HttpReply::Unreachable(why) => Err(AppError::network(why.as_str())),
        HttpReply::Response { status, body } => {
            if is_success(status) {
                Ok(body)
            } else {
                Err(AppError::api(body.as_str()))
            }
        },
        HttpReply::Unread { status, why } => {
            if is_success(status) {
                Err(AppError::response_malformed(why.as_str()))
            } else {
                Err(AppError::api(String::new().as_str()))
            }
        },
    }
}

/// Takes in what decoding the body gave: hands out the proposed text, as
/// it came, or the failure.
pub fn accept_decoded(decoded: Result<GenerationResponse, String>) -> (text: Result<
    String,
    AppError,
>)
    ensures
        text_view(text) == proposal(decoded_view(decoded)),
{
    match decoded {
        Err(why) => Err(AppError::response_malformed(why.as_str())),
        Ok(response) => match response.first_text() {
            Some(text) => Ok(text),
            None => Err(AppError::no_candidate()),
        },
    }
}

} // verus!
