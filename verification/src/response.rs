//! The receiving side of the transport: what a status means, how a body
//! becomes a document, and where the answer and the usage block sit in it.

use crate::codec::{parse, parsed_text};
use crate::config::ConfigError;
use crate::json::{path_view, Json, JsonView, Segment, SegmentView};
use vstd::prelude::*;

verus! {

/// Everything that can end a run before an answer is there.
#[derive(Debug, PartialEq)]
pub enum ClientError {
    /// No credential could be loaded.
    Config(ConfigError),
    /// The exchange itself failed: the connection, or a body that is not
    /// JSON. The library makes this value for the body only; the caller that
    /// owns the network makes it for the rest.
    Transport { detail: String },
    /// The exchange completed and the server answered with a status outside
    /// the success class.
    Rejected { status: u16 },
}

/// A status of the success class: 200 up to and including 299.
pub open spec fn success_status(status: u16) -> bool {
    200 <= status < 300
}

/// Where the answer sits in a response: `choices[0].message.content`.
pub open spec fn answer_path() -> Seq<SegmentView> {
    seq![
        SegmentView::Key("choices"@),
        SegmentView::Index(0),
        SegmentView::Key("message"@),
        SegmentView::Key("content"@),
    ]
}

/// The answer that a response holds, if it holds one.
pub open spec fn answer_of(response: JsonView) -> Option<JsonView> {
    response.at(answer_path())
}

/// The usage block that is to be shown: the response's `usage` member when
/// showing was asked for, and nothing otherwise.
pub open spec fn usage_of(response: JsonView, show_usage: bool) -> Option<JsonView> {
    if show_usage {
        response.member("usage"@)
    } else {
        None
    }
}

/// The answer is found by four steps, and lost at the first that fails: the
/// response must have a `choices` member, that member a first element, the
/// element a `message` member, and the message a `content` member.
pub proof fn lemma_answer_steps(response: JsonView)
    ensures
        answer_of(response) == match response.member("choices"@) {
            Some(choices) => match choices.element(0) {
                Some(choice) => match choice.member("message"@) {
                    Some(message) => message.member("content"@),
                    None => None,
                },
                None => None,
            },
            None => None,
        },
{
    let path = answer_path();
    reveal_with_fuel(JsonView::at, 5);
    assert(path.drop_first() =~= seq![
        SegmentView::Index(0),
        SegmentView::Key("message"@),
        SegmentView::Key("content"@),
    ]);
    assert(path.drop_first().drop_first() =~= seq![
        SegmentView::Key("message"@),
        SegmentView::Key("content"@),
    ]);
    assert(path.drop_first().drop_first().drop_first() =~= seq![SegmentView::Key("content"@)]);
    assert(path.drop_first().drop_first().drop_first().drop_first() =~= Seq::empty());
}

/// A response that is not an object holds no answer and no usage block.
pub proof fn lemma_nothing_in_a_non_object(response: JsonView, show_usage: bool)
    requires
        !(response is Object),
    ensures
        answer_of(response) is None,
        usage_of(response, show_usage) is None,
{
    lemma_answer_steps(response);
}

/// Tells whether a status is of the success class.
pub fn is_success(status: u16) -> (r: bool)
    ensures
        r == success_status(status),
{
    200 <= status && status < 300
}

/// Judges a response by its status alone.
///
/// A status outside the success class is a rejection that carries the
/// status; the body plays no part in it.
pub fn check_status(status: u16) -> (r: Result<(), ClientError>)
    ensures
        r is Ok <==> success_status(status),
        r is Err ==> r == Err::<(), ClientError>(ClientError::Rejected { status }),
{
    if is_success(status) {
        Ok(())
    } else {
        Err(ClientError::Rejected { status })
    }
}

/// Reads the body of an accepted response as a JSON document.
pub fn decode_body(body: &str) -> (r: Result<Json, ClientError>)
    ensures
        match r {
            Ok(doc) => parsed_text(body@) == Some(doc@),
            Err(error) => error is Transport && parsed_text(body@) is None,
        },
{
    match parse(body) {
        Ok(doc) => Ok(doc),
        Err(error) => Err(ClientError::Transport { detail: error.detail }),
    }
}

/// Turns a completed exchange into a document or an error.
///
/// The status is judged first. Only the body of an accepted response is
/// parsed; a rejected one yields `Rejected` with its status whatever the
/// body holds.
pub fn interpret_response(status: u16, body: &str) -> (r: Result<Json, ClientError>)
    ensures
        match r {
            Ok(doc) => success_status(status) && parsed_text(body@) == Some(doc@),
            Err(ClientError::Rejected { status: code }) => !success_status(status) && code
                == status,
            Err(ClientError::Transport { .. }) => success_status(status) && parsed_text(body@)
                is None,
            Err(ClientError::Config(_)) => false,
        },
{
    match check_status(status) {
        Ok(()) => decode_body(body),
        Err(error) => Err(error),
    }
}

/// Finds the answer in a response.
///
/// The response is any document at all. Whatever is missing on the way to
/// `choices[0].message.content`, or of the wrong kind, leaves no answer; it
/// is never an error.
pub fn extract_answer(response: &Json) -> (r: Option<&Json>)
    ensures
        match r {
            Some(answer) => answer_of(response@) == Some(answer@),
            None => answer_of(response@) is None,
        },
{
    let path = vec![
        Segment::Key("choices".to_owned()),
        Segment::Index(0),
        Segment::Key("message".to_owned()),
        Segment::Key("content".to_owned()),
    ];
    assert(path_view(path@) =~= answer_path());
    response.lookup(path.as_slice())
}

/// Finds the usage block in a response, if it is to be shown.
///
/// With `show_usage` off nothing is returned, whatever the response holds.
/// With it on, the `usage` member is returned whole, and its absence is not
/// an error.
pub fn extract_usage(response: &Json, show_usage: bool) -> (r: Option<&Json>)
    ensures
        match r {
            Some(usage) => usage_of(response@, show_usage) == Some(usage@),
            None => usage_of(response@, show_usage) is None,
        },
{
    if show_usage {
        response.get_key("usage")
    } else {
        None
    }
}

} // verus!
