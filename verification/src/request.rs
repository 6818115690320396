//! The request builder: the chat request document and the HTTP request that
//! carries it.

use crate::codec::{render, rendered_text};
use crate::json::{
    items_view, lemma_items_view_push, lemma_members_view_push, Json, JsonView, SegmentView,
};
use vstd::prelude::*;

verus! {

/// The model that requests name unless told otherwise.
pub const DEFAULT_MODEL: &'static str = "llama-3.1-70b-versatile";

/// The instruction sent along with every prompt unless told otherwise.
pub const DEFAULT_SYSTEM_INSTRUCTION: &'static str =
    "Answer concisely, focusing on insight, accuracy, and relevance. Explain in one to three sentences only, in other words only short answer while ensuring the response remains clear and compelling.";

/// The address that requests are posted to unless told otherwise.
pub const DEFAULT_ENDPOINT: &'static str = "https://api.groq.com/openai/v1/chat/completions";

/// What a client is set up with.
#[derive(Debug, PartialEq)]
pub struct Settings {
    /// The identifier of the target model.
    pub model: String,
    /// The instruction that constrains the answer's length and style.
    pub system_instruction: String,
    /// The address that the request is posted to.
    pub endpoint: String,
    /// How long to wait for the response, in seconds; `None` leaves the wait
    /// to the transport.
    pub timeout_secs: Option<u64>,
}

/// An HTTP POST, ready to be sent by whoever owns the network: where it
/// goes, its headers, its body, and how long to wait for the response.
#[derive(Debug, PartialEq)]
pub struct PostRequest {
    pub url: String,
    /// Header names and values, in the order in which they are to be set.
    pub headers: Vec<(String, String)>,
    pub body: String,
    pub timeout_secs: Option<u64>,
}

/// One entry of the `messages` list.
pub open spec fn message_view(role: Seq<char>, content: Seq<char>) -> JsonView {
    JsonView::Object(
        Map::empty().insert("role"@, JsonView::String(role)).insert(
            "content"@,
            JsonView::String(content),
        ),
    )
}

/// The chat request document: the model's name, then the user's prompt
/// followed by the system instruction.
pub open spec fn request_view(
    model: Seq<char>,
    system_instruction: Seq<char>,
    prompt: Seq<char>,
) -> JsonView {
    JsonView::Object(
        Map::empty().insert("model"@, JsonView::String(model)).insert(
            "messages"@,
            JsonView::Array(
                seq![message_view("user"@, prompt), message_view("system"@, system_instruction)],
            ),
        ),
    )
}

/// The value of the `Authorization` header for a credential.
pub open spec fn bearer(credential: Seq<char>) -> Seq<char> {
    "Bearer "@ + credential
}

/// Where the messages of a request sit.
pub open spec fn messages_path() -> Seq<SegmentView> {
    seq![SegmentView::Key("messages"@)]
}

/// Where one field of one message of a request sits.
pub open spec fn message_field_path(position: int, field: Seq<char>) -> Seq<SegmentView> {
    seq![SegmentView::Key("messages"@), SegmentView::Index(position), SegmentView::Key(field)]
}

/// A request holds exactly two messages, in this order: the user's, whose
/// content is the prompt as given, then the system's, whose content is the
/// instruction. Its model is the one it was built with.
pub proof fn lemma_request_messages(
    model: Seq<char>,
    system_instruction: Seq<char>,
    prompt: Seq<char>,
)
    ensures
        ({
            let request = request_view(model, system_instruction, prompt);
            &&& request.member("model"@) == Some(JsonView::String(model))
            &&& request.at(messages_path()) matches Some(JsonView::Array(messages))
            &&& messages.len() == 2
            &&& request.at(message_field_path(0, "role"@)) == Some(JsonView::String("user"@))
            &&& request.at(message_field_path(0, "content"@)) == Some(JsonView::String(prompt))
            &&& request.at(message_field_path(1, "role"@)) == Some(JsonView::String("system"@))
            &&& request.at(message_field_path(1, "content"@)) == Some(
                JsonView::String(system_instruction),
            )
        }),
{
    reveal_strlit("model");
    reveal_strlit("messages");
    reveal_strlit("role");
    reveal_strlit("content");
    let request = request_view(model, system_instruction, prompt);
    let messages = seq![message_view("user"@, prompt), message_view("system"@, system_instruction)];
    assert("model"@ != "messages"@) by {
        assert("model"@.len() != "messages"@.len());
    }
    assert("role"@ != "content"@) by {
        assert("role"@.len() != "content"@.len());
    }
    assert(request.member("messages"@) == Some(JsonView::Array(messages)));
    reveal_with_fuel(JsonView::at, 4);
    assert(messages_path().drop_first() =~= Seq::empty());
    assert forall|position: int, field: Seq<char>| 0 <= position < 2 implies request.at(
        #[trigger] message_field_path(position, field),
    ) == messages[position].member(field) by {
        let path = message_field_path(position, field);
        assert(path.drop_first() =~= seq![SegmentView::Index(position), SegmentView::Key(field)]);
        assert(path.drop_first().drop_first() =~= seq![SegmentView::Key(field)]);
        assert(path.drop_first().drop_first().drop_first() =~= Seq::empty());
    }
}

fn message(role: &str, content: &str) -> (r: Json)
    ensures
        r@ == message_view(role@, content@),
{
    let mut members: Vec<(String, Json)> = Vec::new();
    members.push(("role".to_owned(), Json::String(role.to_owned())));
    let ghost first = members@;
    members.push(("content".to_owned(), Json::String(content.to_owned())));
    proof {
        lemma_members_view_push(Seq::empty(), first[0]);
        lemma_members_view_push(first, members@[1]);
        assert(first =~= Seq::empty().push(first[0]));
        assert(members@ =~= first.push(members@[1]));
    }
    Json::Object(members)
}

impl Default for Settings {
    fn default() -> (r: Settings)
        ensures
            r.model@ == DEFAULT_MODEL@,
            r.system_instruction@ == DEFAULT_SYSTEM_INSTRUCTION@,
            r.endpoint@ == DEFAULT_ENDPOINT@,
            r.timeout_secs is None,
    {
        Settings {
            model: DEFAULT_MODEL.to_owned(),
            system_instruction: DEFAULT_SYSTEM_INSTRUCTION.to_owned(),
            endpoint: DEFAULT_ENDPOINT.to_owned(),
            timeout_secs: None,
        }
    }
}

impl Settings {
    /// Builds the chat request document for a prompt.
    ///
    /// The prompt goes in as it is: nothing is trimmed, escaped or cut, and
    /// the empty prompt is a prompt like any other.
    pub fn request_body(&self, prompt: &str) -> (r: Json)
        ensures
            r@ == request_view(self.model@, self.system_instruction@, prompt@),
    {
        let mut messages: Vec<Json> = Vec::new();
        messages.push(message("user", prompt));
        let ghost user_only = messages@;
        messages.push(message("system", self.system_instruction.as_str()));
        proof {
            lemma_items_view_push(Seq::empty(), user_only[0]);
            lemma_items_view_push(user_only, messages@[1]);
            assert(user_only =~= Seq::empty().push(user_only[0]));
            assert(messages@ =~= user_only.push(messages@[1]));
            assert(items_view(messages@) =~= seq![
                message_view("user"@, prompt@),
                message_view("system"@, self.system_instruction@),
            ]);
        }
        let mut members: Vec<(String, Json)> = Vec::new();
        members.push(("model".to_owned(), Json::String(self.model.clone())));
        let ghost model_only = members@;
        members.push(("messages".to_owned(), Json::Array(messages)));
        proof {
            lemma_members_view_push(Seq::empty(), model_only[0]);
            lemma_members_view_push(model_only, members@[1]);
            assert(model_only =~= Seq::empty().push(model_only[0]));
            assert(members@ =~= model_only.push(members@[1]));
        }
        Json::Object(members)
    }

    /// Prepares the POST that carries `body`, authorised by `credential`.
    ///
    /// The request goes to the configured endpoint with two headers, the
    /// content type and then the bearer credential, and with the document's
    /// JSON text as its body.
    pub fn prepare_request(&self, body: &Json, credential: &str) -> (r: PostRequest)
        ensures
            r.url@ == self.endpoint@,
            r.headers@.len() == 2,
            r.headers@[0].0@ == "Content-Type"@,
            r.headers@[0].1@ == "application/json"@,
            r.headers@[1].0@ == "Authorization"@,
            r.headers@[1].1@ == bearer(credential@),
            r.body@ == rendered_text(body@),
            r.timeout_secs == self.timeout_secs,
    {
        let mut headers: Vec<(String, String)> = Vec::new();
        headers.push(("Content-Type".to_owned(), "application/json".to_owned()));
        headers.push(("Authorization".to_owned(), "Bearer ".to_owned().concat(credential)));
        PostRequest {
            url: self.endpoint.clone(),
            headers,
            body: render(body),
            timeout_secs: self.timeout_secs,
        }
    }
}

/// Builds the chat request document for a prompt with the default model and
/// system instruction.
pub fn build_request_body(prompt: &str) -> (r: Json)
    ensures
        r@ == request_view(DEFAULT_MODEL@, DEFAULT_SYSTEM_INSTRUCTION@, prompt@),
{
    Settings::default().request_body(prompt)
}

} // verus!
