//! The token decoder: it splits a token at its dots and shows the JSON
//! documents that its first two parts hold.

use crate::db::{Database, TablesView};
use crate::text::{split, split_text, string_from, to_chars};
use crate::tools::{
    outcome_view, Completion, CompletionView, Drawing, Field, KeyCode, KeyInput, Reply,
    ReplyView, Tool, ToolError, ToolErrorView, ToolView,
};
use crate::views::views;
use vstd::prelude::*;
use vstd::string::StringExecFns;

verus! {

/// `base64::DecodeError`, the error of the base64 decoder. It is handed on
/// and never looked into.
#[verifier::external_type_specification]
#[verifier::external_body]
pub struct ExDecodeError(base64::DecodeError);

/// `serde_json::Error`, the error of the JSON parser. It is handed on and
/// never looked into.
#[verifier::external_type_specification]
#[verifier::external_body]
pub struct ExJsonError(serde_json::Error);

/// The bytes that a text stands for in base64 with the standard alphabet and
/// without padding; `None` when the text is not such an encoding.
pub uninterp spec fn base64_decoded(text: Seq<char>) -> Option<Seq<u8>>;

/// The JSON document that the bytes hold, written out again in compact form;
/// `None` when the bytes are not one JSON document.
pub uninterp spec fn json_document(bytes: Seq<u8>) -> Option<Seq<char>>;

/// `Engine::decode` of the base64 crate, on its engine `STANDARD_NO_PAD`:
/// the decoded bytes, or an error when the text is not base64 of that form.
/// The result depends on the text alone.
#[verifier::external_body]
fn base64_decode(part: &str) -> (r: Result<Vec<u8>, base64::DecodeError>)
    ensures
        match r {
            Ok(bytes) => base64_decoded(part@) == Some(bytes@),
            Err(_) => base64_decoded(part@) is None,
        },
{
    base64::Engine::decode(&base64::engine::general_purpose::STANDARD_NO_PAD, part)
}

/// `serde_json::from_slice` into a `serde_json::Value`, written back as text
/// by the value's `Display`: the document in compact form, or the parser's
/// error. The result depends on the bytes alone.
#[verifier::external_body]
fn json_text(bytes: &[u8]) -> (r: Result<String, serde_json::Error>)
    ensures
        match r {
            Ok(text) => json_document(bytes@) == Some(text@),
            Err(_) => json_document(bytes@) is None,
        },
{
    match serde_json::from_slice::<serde_json::Value>(bytes) {
        Ok(value) => Ok(value.to_string()),
        Err(e) => Err(e),
    }
}

/// What one part of a token decodes to: the JSON document in its bytes.
pub open spec fn decoded_segment(part: Seq<char>) -> Result<Seq<char>, ToolErrorView> {
    match base64_decoded(part) {
        None => Err(ToolErrorView::Encoding),
        Some(bytes) => match json_document(bytes) {
            None => Err(ToolErrorView::Json),
            Some(text) => Ok(text),
        },
    }
}

/// Decodes one part of a token.
pub fn decode_segment(part: &str) -> (r: Result<String, ToolError>)
    ensures
        outcome_view(r) == decoded_segment(part@),
{
    match base64_decode(part) {
        Err(_) => Err(ToolError::Encoding),
        Ok(bytes) => match json_text(bytes.as_slice()) {
            Err(_) => Err(ToolError::Json),
            Ok(text) => Ok(text),
        },
    }
}

/// The token decoder.
#[derive(Debug, PartialEq, Eq)]
pub struct JwtDecoderTool {
    input: String,
    header: Option<String>,
    payload: Option<String>,
}

/// The state of the token decoder as plain values.
pub struct JwtState {
    pub input: Seq<char>,
    pub header: Option<Seq<char>>,
    pub payload: Option<Seq<char>>,
}

impl JwtState {
    /// The state of a new decoder: empty input, nothing decoded.
    pub open spec fn fresh() -> JwtState {
        JwtState { input: Seq::empty(), header: None, payload: None }
    }
}

/// The text of an optional string.
pub open spec fn text_of(s: Option<String>) -> Option<Seq<char>> {
    match s {
        Some(t) => Some(t@),
        None => None,
    }
}

impl View for JwtDecoderTool {
    type V = JwtState;

    closed spec fn view(&self) -> JwtState {
        JwtState {
            input: self.input@,
            header: text_of(self.header),
            payload: text_of(self.payload),
        }
    }
}

/// The line that shows a decoded part under its label.
pub open spec fn part_line(label: Seq<char>, part: Option<Seq<char>>) -> Seq<char> {
    match part {
        Some(text) => label + text,
        None => label + "None"@,
    }
}

/// What the decoder shows in the state `s`.
pub open spec fn jwt_drawing(s: JwtState) -> Drawing {
    Drawing {
        banner: None,
        fields: seq![("JWT Input"@, s.input)],
        results_title: "JWT Results"@,
        lines: seq![part_line("Header: "@, s.header), part_line("Payload: "@, s.payload)],
    }
}

/// The state and the answer after the two decoded parts of a token of three
/// parts are in: both documents are taken over, or neither.
pub open spec fn jwt_accept(
    s: JwtState,
    header: Result<Seq<char>, ToolErrorView>,
    payload: Result<Seq<char>, ToolErrorView>,
) -> (JwtState, Result<Seq<char>, ToolErrorView>) {
    match (header, payload) {
        (Ok(h), Ok(p)) => (
            JwtState { input: s.input, header: Some(h), payload: Some(p) },
            Ok("Decoded JWT"@),
        ),
        (Err(e), _) => (s, Err(e)),
        (_, Err(e)) => (s, Err(e)),
    }
}

/// The state and the answer after the input is decoded as a token.
pub open spec fn jwt_decode(s: JwtState) -> (JwtState, Result<Seq<char>, ToolErrorView>) {
    let parts = split(s.input, seq!['.']);
    if parts.len() != 3 {
        (s, Err(ToolErrorView::InvalidFormat))
    } else {
        jwt_accept(s, decoded_segment(parts[0]), decoded_segment(parts[1]))
    }
}

/// The state and the answer after a key press.
pub open spec fn jwt_step(s: JwtState, key: KeyInput) -> (
    JwtState,
    Result<ReplyView, ToolErrorView>,
) {
    match key.code {
        KeyCode::Char(c) => (
            JwtState { input: s.input.push(c), ..s },
            Ok(ReplyView::Status("Input updated"@)),
        ),
        KeyCode::Backspace => (
            JwtState {
                input: if s.input.len() > 0 {
                    s.input.drop_last()
                } else {
                    s.input
                },
                ..s
            },
            Ok(ReplyView::Status("Removed character"@)),
        ),
        KeyCode::Enter => match jwt_decode(s) {
            (after, Ok(status)) => (after, Ok(ReplyView::Status(status))),
            (after, Err(e)) => (after, Err(e)),
        },
        _ => (s, Ok(ReplyView::Status(Seq::empty()))),
    }
}

fn part_line_exec(label: &str, part: &Option<String>) -> (line: String)
    ensures
        line@ == part_line(label@, text_of(*part)),
{
    let mut line = label.to_owned();
    match part {
        Some(text) => line.append(text.as_str()),
        None => line.append("None"),
    }
    line
}

impl JwtDecoderTool {
    /// A decoder with empty input and nothing decoded.
    pub fn new() -> (t: JwtDecoderTool)
        ensures
            t@ == JwtState::fresh(),
    {
        JwtDecoderTool { input: String::new(), header: None, payload: None }
    }

    /// The text typed so far.
    pub fn input(&self) -> (s: &str)
        ensures
            s@ == self@.input,
    {
        self.input.as_str()
    }

    /// The decoded header, if a token was decoded.
    pub fn header(&self) -> (s: Option<&str>)
        ensures
            s is Some == self@.header is Some,
            s matches Some(t) ==> self@.header == Some(t@),
    {
        match &self.header {
            Some(t) => Some(t.as_str()),
            None => None,
        }
    }

    /// The decoded payload, if a token was decoded.
    pub fn payload(&self) -> (s: Option<&str>)
        ensures
            s is Some == self@.payload is Some,
            s matches Some(t) ==> self@.payload == Some(t@),
    {
        match &self.payload {
            Some(t) => Some(t.as_str()),
            None => None,
        }
    }

    /// Takes over the two decoded parts of a token: both documents when both
    /// parts decoded, and otherwise nothing, with the error of the first part
    /// that failed.
    pub fn accept(
        &mut self,
        header: Result<String, ToolError>,
        payload: Result<String, ToolError>,
    ) -> (r: Result<String, ToolError>)
        ensures
            (final(self)@, outcome_view(r)) == jwt_accept(
                old(self)@,
                outcome_view(header),
                outcome_view(payload),
            ),
            r is Err ==> *final(self) == *old(self),
    {
        match header {
            Err(e) => Err(e),
            Ok(h) => match payload {
                Err(e) => Err(e),
                Ok(p) => {
                    self.header = Some(h);
                    self.payload = Some(p);
                    Ok("Decoded JWT".to_owned())
                },
            },
        }
    }

    /// Decodes the input as a token of three parts separated by dots.
    pub fn decode_jwt(&mut self) -> (r: Result<String, ToolError>)
        ensures
            (final(self)@, outcome_view(r)) == jwt_decode(old(self)@),
            r is Err ==> *final(self) == *old(self),
    {
        let chars = to_chars(self.input.as_str());
        let dot: Vec<char> = vec!['.'];
        assert(dot@ == seq!['.']);
        let parts = split_text(&chars, &dot);
        assert(views(parts@).len() == parts.len());
        if parts.len() != 3 {
            return Err(ToolError::InvalidFormat);
        }
        assert(views(parts@)[0] == parts[0]@);
        assert(views(parts@)[1] == parts[1]@);
        let first = string_from(&parts[0]);
        let second = string_from(&parts[1]);
        let header = decode_segment(first.as_str());
        let payload = decode_segment(second.as_str());
        self.accept(header, payload)
    }
}

impl Tool for JwtDecoderTool {
    open spec fn spec_name(&self) -> Seq<char> {
        "JWT Decoder"@
    }

    open spec fn spec_render(&self) -> Drawing {
        jwt_drawing(self@)
    }

    open spec fn settled(&self) -> Self {
        *self
    }

    open spec fn handles(
        &self,
        key: KeyInput,
        tables: TablesView,
        after: Self,
        reply: Result<ReplyView, ToolErrorView>,
    ) -> bool {
        (after@, reply) == jwt_step(self@, key)
    }

    open spec fn resumes(
        &self,
        completion: CompletionView,
        after: Self,
        status: Result<Seq<char>, ToolErrorView>,
    ) -> bool {
        after == *self && status == Err::<Seq<char>, ToolErrorView>(ToolErrorView::Unexpected)
    }

    open spec fn cached(&self, tables: TablesView) -> TablesView {
        tables
    }

    open spec fn save_failure(&self, tables: TablesView) -> Option<ToolErrorView> {
        None
    }

    open spec fn informed(&self) -> Self {
        *self
    }

    fn name(&self) -> (n: &'static str) {
        "JWT Decoder"
    }

    fn render(&self) -> (v: ToolView) {
        let mut fields: Vec<Field> = Vec::new();
        fields.push(Field { title: "JWT Input".to_owned(), text: self.input.clone() });
        let mut lines: Vec<String> = Vec::new();
        lines.push(part_line_exec("Header: ", &self.header));
        lines.push(part_line_exec("Payload: ", &self.payload));
        let v = ToolView { banner: None, fields, results_title: "JWT Results".to_owned(), lines };
        assert(v@.fields == jwt_drawing(self@).fields);
        assert(v@.lines == jwt_drawing(self@).lines);
        v
    }

    fn handle_input(&mut self, key: KeyInput, db: &Database) -> (r: Result<Reply, ToolError>) {
        match key.code {
            KeyCode::Char(c) => {
                self.input.push(c);
                Ok(Reply::Status("Input updated".to_owned()))
            },
            KeyCode::Backspace => {
                self.input.pop();
                Ok(Reply::Status("Removed character".to_owned()))
            },
            KeyCode::Enter => match self.decode_jwt() {
                Ok(status) => Ok(Reply::Status(status)),
                Err(e) => Err(e),
            },
            _ => Ok(Reply::Status(String::new())),
        }
    }

    fn resume(&mut self, completion: Completion) -> (r: Result<String, ToolError>) {
        Err(ToolError::Unexpected)
    }

    fn reference_ready(&mut self) {
    }

    fn save_cache(&self, db: &mut Database) -> (r: Result<(), ToolError>)
        ensures
            r is Ok,
    {
        Ok(())
    }
}

} // verus!
