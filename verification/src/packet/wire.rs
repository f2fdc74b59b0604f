use crate::event::EventType;
use crate::json::{
    json_value_text, object_writable, lemma_member_at, lemma_member_without, lemma_object_view, member,
    same_text, without, Json, JsonNumber, JsonObject, JsonView, NumberView, ObjectView,
    SyntaxError,
};
use crate::request_id::{hyphenated, parse_request_id, uuid_text_value};
use vstd::prelude::*;

verus! {

/// What was found in a document where something else was expected.
#[derive(Clone, Debug, PartialEq)]
pub enum Unexpected {
    Bool(bool),
    Unsigned(u64),
    Signed(i64),
    Decimal(String),
    Text(String),
    Null,
    Array,
    Object,
}

/// The mathematical value of an `Unexpected`.
pub enum UnexpectedView {
    Bool(bool),
    Unsigned(u64),
    Signed(i64),
    Decimal(Seq<char>),
    Text(Seq<char>),
    Null,
    Array,
    Object,
}

impl View for Unexpected {
    type V = UnexpectedView;

    open spec fn view(&self) -> UnexpectedView {
        match self {
            Unexpected::Bool(b) => UnexpectedView::Bool(*b),
            Unexpected::Unsigned(n) => UnexpectedView::Unsigned(*n),
            Unexpected::Signed(n) => UnexpectedView::Signed(*n),
            Unexpected::Decimal(t) => UnexpectedView::Decimal(t@),
            Unexpected::Text(t) => UnexpectedView::Text(t@),
            Unexpected::Null => UnexpectedView::Null,
            Unexpected::Array => UnexpectedView::Array,
            Unexpected::Object => UnexpectedView::Object,
        }
    }
}

/// Why a document is not the packet it was read as.
#[derive(Clone, Debug, PartialEq)]
pub enum SchemaError {
    /// A member is missing; the path names it.
    MissingField(&'static str),
    /// A member holds a value of another type than the one named.
    InvalidType(Unexpected, &'static str),
    /// A member holds a value other than the one named.
    InvalidValue(Unexpected, &'static str),
    /// The member of this name could not be read as the type named.
    FieldFailed(&'static str, &'static str),
    /// The packet is of a kind that is never written to the wire.
    Unserializable,
    /// The text is no JSON, or the document could not be written as text.
    Syntax(SyntaxError),
}

/// The mathematical value of a `SchemaError`.
pub enum SchemaErrorView {
    MissingField(Seq<char>),
    InvalidType(UnexpectedView, Seq<char>),
    InvalidValue(UnexpectedView, Seq<char>),
    FieldFailed(Seq<char>, Seq<char>),
    Unserializable,
    Syntax(SyntaxError),
}

impl View for SchemaError {
    type V = SchemaErrorView;

    open spec fn view(&self) -> SchemaErrorView {
        match self {
            SchemaError::MissingField(path) => SchemaErrorView::MissingField(path@),
            SchemaError::InvalidType(found, expected) => SchemaErrorView::InvalidType(
                found@,
                expected@,
            ),
            SchemaError::InvalidValue(found, expected) => SchemaErrorView::InvalidValue(
                found@,
                expected@,
            ),
            SchemaError::FieldFailed(key, kind) => SchemaErrorView::FieldFailed(key@, kind@),
            SchemaError::Unserializable => SchemaErrorView::Unserializable,
            SchemaError::Syntax(e) => SchemaErrorView::Syntax(*e),
        }
    }
}

impl Unexpected {
    /// A copy of the value.
    pub fn copy(&self) -> (r: Unexpected)
        ensures
            r@ == self@,
    {
        match self {
            Unexpected::Bool(b) => Unexpected::Bool(*b),
            Unexpected::Unsigned(n) => Unexpected::Unsigned(*n),
            Unexpected::Signed(n) => Unexpected::Signed(*n),
            Unexpected::Decimal(t) => Unexpected::Decimal(t.clone()),
            Unexpected::Text(t) => Unexpected::Text(t.clone()),
            Unexpected::Null => Unexpected::Null,
            Unexpected::Array => Unexpected::Array,
            Unexpected::Object => Unexpected::Object,
        }
    }
}

impl SchemaError {
    /// A copy of the error.
    pub fn copy(&self) -> (r: SchemaError)
        ensures
            r@ == self@,
    {
        match self {
            SchemaError::MissingField(path) => SchemaError::MissingField(path),
            SchemaError::InvalidType(found, expected) => SchemaError::InvalidType(
                found.copy(),
                expected,
            ),
            SchemaError::InvalidValue(found, expected) => SchemaError::InvalidValue(
                found.copy(),
                expected,
            ),
            SchemaError::FieldFailed(key, kind) => SchemaError::FieldFailed(key, kind),
            SchemaError::Unserializable => SchemaError::Unserializable,
            SchemaError::Syntax(e) => SchemaError::Syntax(*e),
        }
    }
}

/// How a number is reported where it was not expected: as an unsigned
/// integer where it is one, else as a signed one, else by its text.
pub open spec fn unexpected_number(number: NumberView) -> UnexpectedView {
    match number {
        NumberView::Unsigned(n) => UnexpectedView::Unsigned(n),
        NumberView::Signed(n) => if n >= 0 {
            UnexpectedView::Unsigned(n as u64)
        } else {
            UnexpectedView::Signed(n)
        },
        NumberView::Decimal(t) => UnexpectedView::Decimal(t),
    }
}

/// How a value is reported where it was not expected.
pub open spec fn unexpected_of(value: JsonView) -> UnexpectedView {
    match value {
        JsonView::Null => UnexpectedView::Null,
        JsonView::Array(_) => UnexpectedView::Array,
        JsonView::Bool(b) => UnexpectedView::Bool(b),
        JsonView::Number(n) => unexpected_number(n),
        JsonView::Text(t) => UnexpectedView::Text(t),
        JsonView::Object(_) => UnexpectedView::Object,
    }
}

/// Says how a number is reported where it was not expected.
pub fn get_unexpected_number(number: &JsonNumber) -> (r: Unexpected)
    ensures
        r@ == unexpected_number(number@),
{
    match number {
        JsonNumber::Unsigned(n) => Unexpected::Unsigned(*n),
        JsonNumber::Signed(n) => if *n >= 0 {
            Unexpected::Unsigned(*n as u64)
        } else {
            Unexpected::Signed(*n)
        },
        JsonNumber::Decimal(t) => Unexpected::Decimal(t.clone()),
    }
}

/// Says how a value is reported where it was not expected.
pub fn get_unexpected(value: &Json) -> (r: Unexpected)
    ensures
        r@ == unexpected_of(value@),
{
    match value {
        Json::Null => Unexpected::Null,
        Json::Array(_) => Unexpected::Array,
        Json::Bool(b) => Unexpected::Bool(*b),
        Json::Number(n) => get_unexpected_number(n),
        Json::Text(t) => Unexpected::Text(t.clone()),
        Json::Object(_) => Unexpected::Object,
    }
}

/// The 32-bit integer that a value holds, if it holds one.
pub open spec fn read_i32(value: JsonView) -> Option<i32> {
    match value {
        JsonView::Number(n) => match n.as_int() {
            Some(v) => if i32::MIN <= v <= i32::MAX {
                Some(v as i32)
            } else {
                None
            },
            None => None,
        },
        _ => None,
    }
}

/// The text that a value holds, if it holds one.
pub open spec fn read_text(value: JsonView) -> Option<Seq<char>> {
    match value {
        JsonView::Text(t) => Some(t),
        _ => None,
    }
}

/// The request id that a value holds, if it is a text that denotes one.
pub open spec fn read_id(value: JsonView) -> Option<u128> {
    match value {
        JsonView::Text(t) => uuid_text_value(t),
        _ => None,
    }
}

/// The kind of event that a value names, if it is a text that names one.
pub open spec fn read_event_type(value: JsonView) -> Option<EventType> {
    match value {
        JsonView::Text(t) => EventType::from_name_spec(t),
        _ => None,
    }
}

/// What reading a required 32-bit integer from an object gives.
pub open spec fn required_i32(object: ObjectView, key: Seq<char>, path: Seq<char>) -> Result<
    i32,
    SchemaErrorView,
> {
    match member(object, key) {
        None => Err(SchemaErrorView::MissingField(path)),
        Some(value) => match read_i32(value) {
            Some(n) => Ok(n),
            None => Err(SchemaErrorView::FieldFailed(key, "i32"@)),
        },
    }
}

/// What reading a required text from an object gives.
pub open spec fn required_text(object: ObjectView, key: Seq<char>, path: Seq<char>) -> Result<
    Seq<char>,
    SchemaErrorView,
> {
    match member(object, key) {
        None => Err(SchemaErrorView::MissingField(path)),
        Some(value) => match read_text(value) {
            Some(t) => Ok(t),
            None => Err(SchemaErrorView::FieldFailed(key, "String"@)),
        },
    }
}

/// What reading an optional text from an object gives: nothing where the
/// member is absent, an error where it is there and holds no text.
pub open spec fn optional_text(object: ObjectView, key: Seq<char>) -> Result<
    Option<Seq<char>>,
    SchemaErrorView,
> {
    match member(object, key) {
        None => Ok(None),
        Some(value) => match read_text(value) {
            Some(t) => Ok(Some(t)),
            None => Err(SchemaErrorView::FieldFailed(key, "Option<String>"@)),
        },
    }
}

/// What reading a required request id from an object gives.
pub open spec fn required_id(object: ObjectView, key: Seq<char>, path: Seq<char>) -> Result<
    u128,
    SchemaErrorView,
> {
    match member(object, key) {
        None => Err(SchemaErrorView::MissingField(path)),
        Some(value) => match read_id(value) {
            Some(id) => Ok(id),
            None => Err(SchemaErrorView::FieldFailed(key, "Uuid"@)),
        },
    }
}

/// What reading a required kind of event from an object gives.
pub open spec fn required_event_type(
    object: ObjectView,
    key: Seq<char>,
    path: Seq<char>,
) -> Result<EventType, SchemaErrorView> {
    match member(object, key) {
        None => Err(SchemaErrorView::MissingField(path)),
        Some(value) => match read_event_type(value) {
            Some(kind) => Ok(kind),
            None => Err(SchemaErrorView::FieldFailed(key, "EventType"@)),
        },
    }
}

/// Takes a required 32-bit integer out of an object.
pub fn take_i32(object: &mut JsonObject, key: &'static str, path: &'static str) -> (r: Result<
    i32,
    SchemaError,
>)
    ensures
        final(object)@ == without(old(object)@, key@),
        match r {
            Ok(n) => required_i32(old(object)@, key@, path@) == Ok::<i32, SchemaErrorView>(n),
            Err(e) => required_i32(old(object)@, key@, path@) == Err::<i32, SchemaErrorView>(e@),
        },
{
    match object.take(key) {
        None => Err(SchemaError::MissingField(path)),
        Some(Json::Number(JsonNumber::Unsigned(n))) => if n <= 0x7fff_ffff {
            Ok(n as i32)
        } else {
            Err(SchemaError::FieldFailed(key, "i32"))
        },
        Some(Json::Number(JsonNumber::Signed(n))) => if -0x8000_0000 <= n && n <= 0x7fff_ffff {
            Ok(n as i32)
        } else {
            Err(SchemaError::FieldFailed(key, "i32"))
        },
        Some(_) => Err(SchemaError::FieldFailed(key, "i32")),
    }
}

/// Takes a required text out of an object.
pub fn take_text(object: &mut JsonObject, key: &'static str, path: &'static str) -> (r: Result<
    String,
    SchemaError,
>)
    ensures
        final(object)@ == without(old(object)@, key@),
        match r {
            Ok(t) => required_text(old(object)@, key@, path@) == Ok::<Seq<char>, SchemaErrorView>(
                t@,
            ),
            Err(e) => required_text(old(object)@, key@, path@) == Err::<
                Seq<char>,
                SchemaErrorView,
            >(e@),
        },
{
    match object.take(key) {
        None => Err(SchemaError::MissingField(path)),
        Some(Json::Text(t)) => Ok(t),
        Some(_) => Err(SchemaError::FieldFailed(key, "String")),
    }
}

/// Takes an optional text out of an object.
pub fn take_optional_text(object: &mut JsonObject, key: &'static str) -> (r: Result<
    Option<String>,
    SchemaError,
>)
    ensures
        final(object)@ == without(old(object)@, key@),
        match r {
            Ok(Some(t)) => optional_text(old(object)@, key@) == Ok::<
                Option<Seq<char>>,
                SchemaErrorView,
            >(Some(t@)),
            Ok(None) => optional_text(old(object)@, key@) == Ok::<
                Option<Seq<char>>,
                SchemaErrorView,
            >(None),
            Err(e) => optional_text(old(object)@, key@) == Err::<
                Option<Seq<char>>,
                SchemaErrorView,
            >(e@),
        },
{
    match object.take(key) {
        None => Ok(None),
        Some(Json::Text(t)) => Ok(Some(t)),
        Some(_) => Err(SchemaError::FieldFailed(key, "Option<String>")),
    }
}

/// Takes a required request id out of an object. The hyphenated form of an
/// id is read as that id.
pub fn take_id(object: &mut JsonObject, key: &'static str, path: &'static str) -> (r: Result<
    u128,
    SchemaError,
>)
    ensures
        final(object)@ == without(old(object)@, key@),
        match r {
            Ok(id) => required_id(old(object)@, key@, path@) == Ok::<u128, SchemaErrorView>(id),
            Err(e) => required_id(old(object)@, key@, path@) == Err::<u128, SchemaErrorView>(e@),
        },
        forall|id: u128|
            member(old(object)@, key@) == Some(JsonView::Text(#[trigger] hyphenated(id))) ==> r
                == Ok::<u128, SchemaError>(id),
{
    match object.take(key) {
        None => Err(SchemaError::MissingField(path)),
        Some(Json::Text(t)) => match parse_request_id(t.as_str()) {
            Some(id) => Ok(id),
            None => Err(SchemaError::FieldFailed(key, "Uuid")),
        },
        Some(_) => Err(SchemaError::FieldFailed(key, "Uuid")),
    }
}

/// Takes a required kind of event out of an object.
pub fn take_event_type(
    object: &mut JsonObject,
    key: &'static str,
    path: &'static str,
) -> (r: Result<EventType, SchemaError>)
    ensures
        final(object)@ == without(old(object)@, key@),
        match r {
            Ok(kind) => required_event_type(old(object)@, key@, path@) == Ok::<
                EventType,
                SchemaErrorView,
            >(kind),
            Err(e) => required_event_type(old(object)@, key@, path@) == Err::<
                EventType,
                SchemaErrorView,
            >(e@),
        },
{
    match object.take(key) {
        None => Err(SchemaError::MissingField(path)),
        Some(Json::Text(t)) => match EventType::from_name(t.as_str()) {
            Some(kind) => Ok(kind),
            None => Err(SchemaError::FieldFailed(key, "EventType")),
        },
        Some(_) => Err(SchemaError::FieldFailed(key, "EventType")),
    }
}


/// The two halves of a wire packet.
#[derive(Clone, Debug, PartialEq)]
pub struct Frame {
    pub header: JsonObject,
    pub body: JsonObject,
}

/// The mathematical value of a `Frame`.
pub struct FrameView {
    pub header: ObjectView,
    pub body: ObjectView,
}

impl View for Frame {
    type V = FrameView;

    open spec fn view(&self) -> FrameView {
        FrameView { header: self.header@, body: self.body@ }
    }
}

/// The message purpose that a document declares in its header.
pub open spec fn purpose_of(document: ObjectView) -> Result<Seq<char>, SchemaErrorView> {
    match member(document, "header"@) {
        None => Err(SchemaErrorView::MissingField("header"@)),
        Some(JsonView::Object(header)) => match member(header, "messagePurpose"@) {
            None => Err(SchemaErrorView::MissingField("header.messagePurpose"@)),
            Some(JsonView::Text(purpose)) => Ok(purpose),
            Some(other) => Err(SchemaErrorView::InvalidValue(unexpected_of(other), "string"@)),
        },
        Some(other) => Err(SchemaErrorView::InvalidValue(unexpected_of(other), "json object"@)),
    }
}

/// What a header must hold for a packet of a given purpose: a version that
/// is a number, and that purpose.
pub open spec fn check_header(header: ObjectView, purpose: Seq<char>) -> Result<
    (),
    SchemaErrorView,
> {
    match member(header, "version"@) {
        None => Err(SchemaErrorView::MissingField("header.version"@)),
        Some(JsonView::Number(_)) => match member(header, "messagePurpose"@) {
            None => Err(SchemaErrorView::MissingField("header.messagePurpose"@)),
            Some(JsonView::Text(declared)) => if declared == purpose {
                Ok(())
            } else {
                Err(SchemaErrorView::InvalidValue(UnexpectedView::Text(declared), purpose))
            },
            Some(other) => Err(SchemaErrorView::InvalidType(unexpected_of(other), "string"@)),
        },
        Some(other) => Err(SchemaErrorView::InvalidType(unexpected_of(other), "i64"@)),
    }
}

/// The header and body of a document read as a packet of a given purpose.
pub open spec fn frame_of(document: ObjectView, purpose: Seq<char>) -> Result<
    FrameView,
    SchemaErrorView,
> {
    match member(document, "header"@) {
        None => Err(SchemaErrorView::MissingField("header"@)),
        Some(JsonView::Object(header)) => match member(document, "body"@) {
            None => Err(SchemaErrorView::MissingField("body"@)),
            Some(JsonView::Object(body)) => match check_header(header, purpose) {
                Ok(()) => Ok(FrameView { header, body }),
                Err(e) => Err(e),
            },
            Some(other) => Err(SchemaErrorView::InvalidType(unexpected_of(other), "json object"@)),
        },
        Some(other) => Err(SchemaErrorView::InvalidType(unexpected_of(other), "json object"@)),
    }
}

/// Reads the message purpose that a document declares.
pub fn read_purpose(document: &JsonObject) -> (r: Result<String, SchemaError>)
    ensures
        match r {
            Ok(purpose) => purpose_of(document@) == Ok::<Seq<char>, SchemaErrorView>(purpose@),
            Err(e) => purpose_of(document@) == Err::<Seq<char>, SchemaErrorView>(e@),
        },
{
    match document.get("header") {
        None => Err(SchemaError::MissingField("header")),
        Some(Json::Object(header)) => {
            proof {
                lemma_object_view(*header);
            }
            match header.get("messagePurpose") {
                None => Err(SchemaError::MissingField("header.messagePurpose")),
                Some(Json::Text(purpose)) => Ok(purpose.clone()),
                Some(other) => Err(SchemaError::InvalidValue(get_unexpected(other), "string")),
            }
        },
        Some(other) => Err(SchemaError::InvalidValue(get_unexpected(other), "json object")),
    }
}

/// Checks the version and the purpose that a header declares.
pub fn verify_header(header: &JsonObject, purpose: &'static str) -> (r: Result<(), SchemaError>)
    ensures
        match r {
            Ok(()) => check_header(header@, purpose@) == Ok::<(), SchemaErrorView>(()),
            Err(e) => check_header(header@, purpose@) == Err::<(), SchemaErrorView>(e@),
        },
{
    match header.get("version") {
        None => Err(SchemaError::MissingField("header.version")),
        Some(Json::Number(_)) => match header.get("messagePurpose") {
            None => Err(SchemaError::MissingField("header.messagePurpose")),
            Some(Json::Text(declared)) => if same_text(declared.as_str(), purpose) {
                Ok(())
            } else {
                Err(SchemaError::InvalidValue(Unexpected::Text(declared.clone()), purpose))
            },
            Some(other) => Err(SchemaError::InvalidType(get_unexpected(other), "string")),
        },
        Some(other) => Err(SchemaError::InvalidType(get_unexpected(other), "i64")),
    }
}

/// Takes the header and the body out of a document and checks the header.
pub fn open_frame(document: JsonObject, purpose: &'static str) -> (r: Result<Frame, SchemaError>)
    ensures
        match r {
            Ok(frame) => frame_of(document@, purpose@) == Ok::<FrameView, SchemaErrorView>(frame@),
            Err(e) => frame_of(document@, purpose@) == Err::<FrameView, SchemaErrorView>(e@),
        },
{
    let mut document = document;
    let ghost whole = document@;
    proof {
        reveal_strlit("header");
        reveal_strlit("body");
        assert("header"@.len() != "body"@.len());
        lemma_member_without(whole, "header"@, "body"@);
    }
    let header = match document.take("header") {
        None => {
            return Err(SchemaError::MissingField("header"));
        },
        Some(Json::Object(header)) => {
            proof {
                lemma_object_view(header);
            }
            header
        },
        Some(other) => {
            return Err(SchemaError::InvalidType(get_unexpected(&other), "json object"));
        },
    };
    let body = match document.take("body") {
        None => {
            return Err(SchemaError::MissingField("body"));
        },
        Some(Json::Object(body)) => {
            proof {
                lemma_object_view(body);
            }
            body
        },
        Some(other) => {
            return Err(SchemaError::InvalidType(get_unexpected(&other), "json object"));
        },
    };
    match verify_header(&header, purpose) {
        Ok(()) => Ok(Frame { header, body }),
        Err(e) => Err(e),
    }
}


/// The document that a frame is written as: the header first, then the body.
pub open spec fn document_of(frame: FrameView) -> ObjectView {
    seq![("header"@, JsonView::Object(frame.header)), ("body"@, JsonView::Object(frame.body))]
}

/// The text that a frame is written as.
pub open spec fn frame_text(frame: FrameView) -> Seq<char> {
    "{\"header\":"@ + json_value_text(JsonView::Object(frame.header)) + ",\"body\":"@
        + json_value_text(JsonView::Object(frame.body)) + "}"@
}

/// Whether two objects hold the same value under every name, in whatever
/// order their members stand.
pub open spec fn agree(a: ObjectView, b: ObjectView) -> bool {
    forall|name: Seq<char>| #[trigger] member(a, name) == member(b, name)
}

/// Whether a document holds a frame: under `header` and under `body` it
/// holds objects that agree with the header and the body of the frame. The
/// order of the members does not count, nor what else the document holds.
pub open spec fn holds_frame(document: ObjectView, frame: FrameView) -> bool {
    &&& member(document, "header"@) matches Some(JsonView::Object(header)) && agree(
        header,
        frame.header,
    )
    &&& member(document, "body"@) matches Some(JsonView::Object(body)) && agree(body, frame.body)
}

/// The document that a frame is written as holds that frame.
pub proof fn lemma_document_holds_its_frame(frame: FrameView)
    ensures
        holds_frame(document_of(frame), frame),
{
    reveal_strlit("header");
    reveal_strlit("body");
    assert("header"@.len() != "body"@.len());
    let document = document_of(frame);
    lemma_member_at(document, 0, "header"@);
    lemma_member_at(document, 1, "body"@);
}

/// A document that holds a frame is read back as a frame that agrees with
/// it, where the header of the frame declares a version and the purpose
/// asked for; and the purpose that the document declares is that purpose.
pub proof fn lemma_held_frame_reads_back(
    document: ObjectView,
    frame: FrameView,
    purpose: Seq<char>,
)
    requires
        holds_frame(document, frame),
        check_header(frame.header, purpose) == Ok::<(), SchemaErrorView>(()),
    ensures
        frame_of(document, purpose) matches Ok(read) && agree(read.header, frame.header) && agree(
            read.body,
            frame.body,
        ),
        purpose_of(document) == Ok::<Seq<char>, SchemaErrorView>(purpose),
{
    let header = member(document, "header"@)->0->Object_0;
    assert(member(header, "version"@) == member(frame.header, "version"@));
    assert(member(header, "messagePurpose"@) == member(frame.header, "messagePurpose"@));
}

impl FrameView {
    /// Whether the frame can be written as text: its header and its body
    /// can.
    pub open spec fn writable(self) -> bool {
        object_writable(self.header) && object_writable(self.body)
    }
}

impl Frame {
    /// Writes the frame as text, the header before the body. That fails
    /// exactly where the frame cannot be written.
    pub fn render(self) -> (r: Result<String, SchemaError>)
        ensures
            match r {
                Ok(text) => self@.writable() && text@ == frame_text(self@),
                Err(e) => !self@.writable() && e == SchemaError::Syntax(SyntaxError::Unwritable),
            },
    {
        proof {
            lemma_object_view(self.header);
            lemma_object_view(self.body);
        }
        let header = match Json::Object(self.header).render() {
            Ok(text) => text,
            Err(e) => {
                return Err(SchemaError::Syntax(e));
            },
        };
        let body = match Json::Object(self.body).render() {
            Ok(text) => text,
            Err(e) => {
                return Err(SchemaError::Syntax(e));
            },
        };
        let mut text = "{\"header\":".to_owned();
        text.append(header.as_str());
        text.append(",\"body\":");
        text.append(body.as_str());
        text.append("}");
        Ok(text)
    }
}

/// A text as a JSON value.
pub fn text_value(text: &str) -> (r: Json)
    ensures
        r@ == JsonView::Text(text@),
{
    Json::Text(text.to_owned())
}

} // verus!
