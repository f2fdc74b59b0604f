use vstd::prelude::*;

verus! {

/// A JSON number. Integers that fit 64 bits are held exactly; every other
/// number is held as its decimal text.
#[derive(Clone, Debug, PartialEq)]
pub enum JsonNumber {
    Unsigned(u64),
    Signed(i64),
    Decimal(String),
}

/// One member of a JSON object.
#[derive(Clone, Debug, PartialEq)]
pub struct JsonField {
    pub name: String,
    pub value: Json,
}

/// A JSON object: its members in the order they were written. Where several
/// members share a name, the last one is the one the object holds under it.
#[derive(Clone, Debug, PartialEq)]
pub struct JsonObject {
    pub fields: Vec<JsonField>,
}

/// A JSON document held as plain values.
#[derive(Debug, PartialEq)]
pub enum Json {
    Null,
    Bool(bool),
    Number(JsonNumber),
    Text(String),
    Array(Vec<Json>),
    Object(JsonObject),
}

/// The mathematical value of a JSON number.
pub enum NumberView {
    Unsigned(u64),
    Signed(i64),
    Decimal(Seq<char>),
}

/// The mathematical value of a JSON object.
pub type ObjectView = Seq<(Seq<char>, JsonView)>;

/// The mathematical value of a JSON document.
pub enum JsonView {
    Null,
    Bool(bool),
    Number(NumberView),
    Text(Seq<char>),
    Array(Seq<JsonView>),
    Object(ObjectView),
}

impl NumberView {
    /// The number as an integer, where it is one that fits 64 bits.
    pub open spec fn as_int(self) -> Option<int> {
        match self {
            NumberView::Unsigned(n) => Some(n as int),
            NumberView::Signed(n) => Some(n as int),
            NumberView::Decimal(_) => None,
        }
    }
}

impl View for JsonNumber {
    type V = NumberView;

    open spec fn view(&self) -> NumberView {
        match self {
            JsonNumber::Unsigned(n) => NumberView::Unsigned(*n),
            JsonNumber::Signed(n) => NumberView::Signed(*n),
            JsonNumber::Decimal(t) => NumberView::Decimal(t@),
        }
    }
}

impl Json {
    /// The document as a mathematical value.
    pub open spec fn value(&self) -> JsonView
        decreases self,
    {
        match self {
            Json::Null => JsonView::Null,
            Json::Bool(b) => JsonView::Bool(*b),
            Json::Number(n) => JsonView::Number(n@),
            Json::Text(t) => JsonView::Text(t@),
            Json::Array(items) => JsonView::Array(
                Seq::new(
                    items@.len(),
                    |i: int|
                        if 0 <= i < items@.len() {
                            items@[i].value()
                        } else {
                            JsonView::Null
                        },
                ),
            ),
            Json::Object(object) => JsonView::Object(
                Seq::new(
                    object.fields@.len(),
                    |i: int|
                        if 0 <= i < object.fields@.len() {
                            (object.fields@[i].name@, object.fields@[i].value.value())
                        } else {
                            (Seq::empty(), JsonView::Null)
                        },
                ),
            ),
        }
    }
}

impl View for Json {
    type V = JsonView;

    open spec fn view(&self) -> JsonView {
        self.value()
    }
}

impl View for JsonObject {
    type V = ObjectView;

    open spec fn view(&self) -> ObjectView {
        Seq::new(self.fields@.len(), |i: int| (self.fields@[i].name@, self.fields@[i].value@))
    }
}

/// The value an object holds under a name: that of the last member so named.
pub open spec fn member(object: ObjectView, name: Seq<char>) -> Option<JsonView>
    decreases object.len(),
{
    if object.len() == 0 {
        None
    } else if object.last().0 == name {
        Some(object.last().1)
    } else {
        member(object.drop_last(), name)
    }
}

/// The object without the members of a given name.
pub open spec fn without(object: ObjectView, name: Seq<char>) -> ObjectView
    decreases object.len(),
{
    if object.len() == 0 {
        object
    } else if object.last().0 == name {
        without(object.drop_last(), name)
    } else {
        without(object.drop_last(), name).push(object.last())
    }
}

/// The view of an object document is the view of the object it holds.
pub proof fn lemma_object_view(object: JsonObject)
    ensures
        Json::Object(object)@ == JsonView::Object(object@),
{
    let whole = Json::Object(object);
    reveal_with_fuel(Json::value, 2);
    assert forall|i: int| 0 <= i < object@.len() implies whole@->Object_0[i] == object@[i] by {}
    assert(whole@->Object_0 =~= object@);
}

/// Whether two texts hold the same characters.
pub fn same_text(a: &str, b: &str) -> (r: bool)
    ensures
        r == (a@ == b@),
{
    let x = a.to_owned();
    let y = b.to_owned();
    x == y
}

impl JsonObject {
    /// An object without members.
    pub fn new() -> (r: JsonObject)
        ensures
            r@ == Seq::<(Seq<char>, JsonView)>::empty(),
    {
        JsonObject { fields: Vec::new() }
    }

    /// The value held under a name, if any.
    pub fn get(&self, name: &str) -> (r: Option<&Json>)
        ensures
            match r {
                Some(value) => member(self@, name@) == Some(value@),
                None => member(self@, name@) is None,
            },
    {
        let mut i: usize = self.fields.len();
        assert(self@.subrange(0, i as int) =~= self@);
        while i > 0
            invariant
                i <= self.fields@.len(),
                member(self@, name@) == member(self@.subrange(0, i as int), name@),
            decreases i,
        {
            let ghost prefix = self@.subrange(0, i as int);
            assert(prefix.drop_last() =~= self@.subrange(0, i - 1));
            i = i - 1;
            if same_text(self.fields[i].name.as_str(), name) {
                return Some(&self.fields[i].value);
            }
        }
        None
    }

    /// Takes out every member of a given name.
    pub fn remove_all(&mut self, name: &str)
        ensures
            final(self)@ == without(old(self)@, name@),
    {
        let ghost before = self@;
        let mut i: usize = 0;
        let ghost mut done: int = 0;
        assert(self@ =~= without(before.subrange(0, 0), name@) + before.subrange(
            0,
            before.len() as int,
        ));
        while i < self.fields.len()
            invariant
                0 <= done <= before.len(),
                i == without(before.subrange(0, done), name@).len(),
                self@ == without(before.subrange(0, done), name@) + before.subrange(
                    done,
                    before.len() as int,
                ),
            decreases before.len() - done,
        {
            let ghost kept = without(before.subrange(0, done), name@);
            let ghost current = self@;
            assert(current.len() == kept.len() + (before.len() - done));
            assert(current[i as int] == before.subrange(done, before.len() as int)[0]);
            assert(before.subrange(0, done + 1).drop_last() =~= before.subrange(0, done));
            if same_text(self.fields[i].name.as_str(), name) {
                self.fields.remove(i);
                assert forall|j: int| 0 <= j < self@.len() implies self@[j] == (if j < i {
                    current[j]
                } else {
                    current[j + 1]
                }) by {}
            } else {
                i = i + 1;
            }
            proof {
                done = done + 1;
            }
        }
    }

    /// Writes a member at the end of the object.
    pub fn push(&mut self, name: &str, value: Json)
        ensures
            final(self)@ == old(self)@.push((name@, value@)),
    {
        self.fields.push(JsonField { name: name.to_owned(), value });
    }

    /// Puts a value under a name, in place of any the object held under it.
    pub fn insert(&mut self, name: String, value: Json)
        ensures
            final(self)@ == without(old(self)@, name@).push((name@, value@)),
    {
        self.remove_all(name.as_str());
        self.fields.push(JsonField { name, value });
    }

    /// Takes out every member of a given name and hands out the value the
    /// object held under it.
    pub fn take(&mut self, name: &str) -> (r: Option<Json>)
        ensures
            final(self)@ == without(old(self)@, name@),
            match r {
                Some(value) => member(old(self)@, name@) == Some(value@),
                None => member(old(self)@, name@) is None,
            },
    {
        let ghost before = self@;
        let mut i: usize = self.fields.len();
        assert(before.subrange(0, i as int) =~= before);
        while i > 0
            invariant
                before == old(self)@,
                self@ == before,
                i <= self.fields@.len(),
                member(before, name@) == member(before.subrange(0, i as int), name@),
                without(before, name@) == without(before.subrange(0, i as int), name@)
                    + before.subrange(i as int, before.len() as int),
            decreases i,
        {
            let ghost prefix = before.subrange(0, i as int);
            assert(prefix.drop_last() =~= before.subrange(0, i - 1));
            i = i - 1;
            if same_text(self.fields[i].name.as_str(), name) {
                let found = self.fields.remove(i);
                assert(self@ =~= before.subrange(0, i as int) + before.subrange(
                    i + 1,
                    before.len() as int,
                )) by {
                    assert forall|j: int| 0 <= j < self@.len() implies self@[j] == (if j < i {
                        before[j]
                    } else {
                        before[j + 1]
                    }) by {}
                }
                let ghost head = before.subrange(0, i as int);
                let ghost tail = before.subrange(i + 1, before.len() as int);
                self.remove_all(name);
                proof {
                    let kept = without(head, name@);
                    lemma_without_concat(head, tail, name@);
                    lemma_without_concat(prefix, tail, name@);
                    assert(before =~= prefix + tail);
                    assert(tail.len() == without(tail, name@).len()) by {
                        assert((kept + tail).len() == kept.len() + tail.len());
                    }
                    assert forall|j: int| 0 <= j < tail.len() implies tail[j] == without(
                        tail,
                        name@,
                    )[j] by {
                        assert((kept + tail)[kept.len() + j] == tail[j]);
                    }
                }
                return Some(found.value);
            }
        }
        None
    }
}

/// Taking a name out of two objects written one after the other takes it
/// out of each.
pub proof fn lemma_without_concat(a: ObjectView, b: ObjectView, name: Seq<char>)
    ensures
        without(a + b, name) == without(a, name) + without(b, name),
    decreases b.len(),
{
    if b.len() > 0 {
        lemma_without_concat(a, b.drop_last(), name);
        assert((a + b).drop_last() =~= a + b.drop_last());
    }
}

/// Taking one name out of an object leaves what it holds under another.
pub proof fn lemma_member_without(object: ObjectView, taken: Seq<char>, name: Seq<char>)
    requires
        taken != name,
    ensures
        member(without(object, taken), name) == member(object, name),
    decreases object.len(),
{
    if object.len() > 0 {
        lemma_member_without(object.drop_last(), taken, name);
        if object.last().0 != taken {
            let kept = without(object.drop_last(), taken);
            assert(kept.push(object.last()).drop_last() =~= kept);
        }
    }
}

/// An object holds under a name the value of the member so named after
/// which no member has that name.
pub proof fn lemma_member_at(object: ObjectView, at: int, name: Seq<char>)
    requires
        0 <= at < object.len(),
        object[at].0 == name,
        forall|j: int| at < j < object.len() ==> object[j].0 != name,
    ensures
        member(object, name) == Some(object[at].1),
    decreases object.len(),
{
    if at < object.len() - 1 {
        lemma_member_at(object.drop_last(), at, name);
    }
}

impl JsonNumber {
    /// A copy of the number.
    pub fn copy(&self) -> (r: JsonNumber)
        ensures
            r@ == self@,
    {
        match self {
            JsonNumber::Unsigned(n) => JsonNumber::Unsigned(*n),
            JsonNumber::Signed(n) => JsonNumber::Signed(*n),
            JsonNumber::Decimal(t) => JsonNumber::Decimal(t.clone()),
        }
    }
}

impl Json {
    /// A copy of the document.
    pub fn copy(&self) -> (r: Json)
        ensures
            r@ == self@,
        decreases self,
    {
        match self {
            Json::Null => Json::Null,
            Json::Bool(b) => Json::Bool(*b),
            Json::Number(n) => Json::Number(n.copy()),
            Json::Text(t) => Json::Text(t.clone()),
            Json::Array(items) => {
                let mut copies: Vec<Json> = Vec::new();
                let mut i: usize = 0;
                while i < items.len()
                    invariant
                        i <= items@.len(),
                        copies@.len() == i,
                        forall|j: int| 0 <= j < i ==> copies@[j]@ == items@[j]@,
                        forall|j: int| 0 <= j < items@.len() ==> decreases_to!(self => items@[j]),
                    decreases items@.len() - i,
                {
                    let item = items[i].copy();
                    copies.push(item);
                    i = i + 1;
                }
                let r = Json::Array(copies);
                assert(r@ == self@) by {
                    assert(r@->Array_0 =~= self@->Array_0);
                }
                r
            },
            Json::Object(object) => {
                let copied = object.copy();
                proof {
                    lemma_object_view(copied);
                    lemma_object_view(*object);
                }
                Json::Object(copied)
            },
        }
    }
}

impl Clone for Json {
    fn clone(&self) -> (r: Json)
        ensures
            r@ == self@,
    {
        self.copy()
    }
}

impl JsonObject {
    /// A copy of the object.
    pub fn copy(&self) -> (r: JsonObject)
        ensures
            r@ == self@,
        decreases self,
    {
        let mut fields: Vec<JsonField> = Vec::new();
        let mut i: usize = 0;
        while i < self.fields.len()
            invariant
                i <= self.fields@.len(),
                fields@.len() == i,
                forall|j: int|
                    0 <= j < i ==> fields@[j].name@ == self.fields@[j].name@ && fields@[j].value@
                        == self.fields@[j].value@,
                forall|j: int|
                    0 <= j < self.fields@.len() ==> decreases_to!(self => self.fields@[j].value),
            decreases self.fields@.len() - i,
        {
            let value = self.fields[i].value.copy();
            fields.push(JsonField { name: self.fields[i].name.clone(), value });
            i = i + 1;
        }
        JsonObject { fields }
    }
}

/// Whether the `FromStr` impl of `serde_json::Number` reads a text as a
/// number.
pub uninterp spec fn json_number_text(text: Seq<char>) -> bool;

impl NumberView {
    /// Whether the number can be written: a number held as text can where
    /// the text is that of a number.
    pub open spec fn writable(self) -> bool {
        match self {
            NumberView::Decimal(text) => json_number_text(text),
            _ => true,
        }
    }
}

impl JsonView {
    /// Whether the document can be written as JSON text: every number in
    /// it can.
    pub open spec fn writable(self) -> bool
        decreases self,
    {
        match self {
            JsonView::Number(number) => number.writable(),
            JsonView::Array(items) => forall|i: int|
                0 <= i < items.len() ==> (#[trigger] items[i]).writable(),
            JsonView::Object(fields) => object_writable(fields),
            _ => true,
        }
    }
}

/// Whether every value that an object's members hold can be written.
pub open spec fn object_writable(fields: ObjectView) -> bool
    decreases fields,
{
    forall|i: int| 0 <= i < fields.len() ==> (#[trigger] fields[i]).1.writable()
}

/// What `serde_json::from_str` makes of a text: the document it holds, or
/// nothing where the text is not one JSON document.
pub uninterp spec fn json_text_value(text: Seq<char>) -> Option<JsonView>;

/// The text that `serde_json::to_string` writes for a document.
pub uninterp spec fn json_value_text(value: JsonView) -> Seq<char>;

/// `serde_json::Value`, carried through as it is: nothing inside it is
/// looked at but by the functions below.
#[verifier::external_type_specification]
#[verifier::external_body]
pub struct ExJsonValue(serde_json::Value);

/// `serde_json::Number`, carried through in the same way.
#[verifier::external_type_specification]
#[verifier::external_body]
pub struct ExJsonNumber(serde_json::Number);

/// Reads a `serde_json::Number` through `as_u64` and `as_i64`; a number that
/// is neither is kept as the text its `Display` impl writes. Nothing is
/// claimed of the result.
#[verifier::external_body]
fn number_from_outside(number: &serde_json::Number) -> JsonNumber {
    match (number.as_u64(), number.as_i64()) {
        (Some(n), _) => JsonNumber::Unsigned(n),
        (None, Some(n)) => JsonNumber::Signed(n),
        (None, None) => JsonNumber::Decimal(number.to_string()),
    }
}

/// Moves a `serde_json::Value` into a `Json`, variant by variant. Nothing is
/// claimed of the result.
#[verifier::external_body]
fn json_from_outside(value: serde_json::Value) -> Json {
    match value {
        serde_json::Value::Null => Json::Null,
        serde_json::Value::Bool(b) => Json::Bool(b),
        serde_json::Value::Number(n) => Json::Number(number_from_outside(&n)),
        serde_json::Value::String(t) => Json::Text(t),
        serde_json::Value::Array(a) => Json::Array(a.into_iter().map(json_from_outside).collect()),
        serde_json::Value::Object(m) => Json::Object(JsonObject {
            fields: m
                .into_iter()
                .map(|(name, v)| JsonField { name, value: json_from_outside(v) })
                .collect(),
        }),
    }
}

/// Calls the `FromStr` impl of `serde_json::Number`. The contract names
/// whether the text is read as a number.
#[verifier::external_body]
fn decimal_outside(text: &str) -> (r: Option<serde_json::Number>)
    ensures
        r is Some == json_number_text(text@),
{
    text.parse::<serde_json::Number>().ok()
}

/// Builds a `serde_json::Value` for a number that can be written: with
/// `From` for the integers, and from what `decimal_outside` reads for a
/// decimal text. A text that is no number is left out by `requires`, so the
/// other arm of `map_or` is never taken. Nothing is claimed of the result.
#[verifier::external_body]
fn number_to_outside(number: &JsonNumber) -> serde_json::Value
    requires
        number@.writable(),
{
    match number {
        JsonNumber::Unsigned(n) => serde_json::Value::Number(serde_json::Number::from(*n)),
        JsonNumber::Signed(n) => serde_json::Value::Number(serde_json::Number::from(*n)),
        JsonNumber::Decimal(t) => decimal_outside(t).map_or(
            serde_json::Value::Null,
            serde_json::Value::Number,
        ),
    }
}

/// Builds a `serde_json::Value` from a `Json` that can be written, variant
/// by variant; the members of an object are inserted in order into a
/// `serde_json::Map`, so the last of several with one name stays. Nothing is
/// claimed of the result.
#[verifier::external_body]
fn json_to_outside(value: &Json) -> serde_json::Value
    requires
        value@.writable(),
{
    match value {
        Json::Null => serde_json::Value::Null,
        Json::Bool(b) => serde_json::Value::Bool(*b),
        Json::Number(n) => number_to_outside(n),
        Json::Text(t) => serde_json::Value::String(t.clone()),
        Json::Array(items) => serde_json::Value::Array(items.iter().map(json_to_outside).collect()),
        Json::Object(object) => serde_json::Value::Object(
            object.fields.iter().map(|f| (f.name.clone(), json_to_outside(&f.value))).collect(),
        ),
    }
}

/// Calls `serde_json::from_str` for a `serde_json::Value`. The contract names
/// the outcome: the document read is the one `json_text_value` gives for the
/// text, and nothing is handed out exactly where the call fails.
#[verifier::external_body]
fn parse_outside(text: &str) -> (r: Option<Json>)
    ensures
        match r {
            Some(value) => json_text_value(text@) == Some(value@),
            None => json_text_value(text@) is None,
        },
{
    serde_json::from_str::<serde_json::Value>(text).ok().map(json_from_outside)
}

/// Calls `serde_json::to_string` on the `serde_json::Value` built from a
/// document that can be written. The call succeeds on every `Value`; the
/// contract says so and names the text written.
#[verifier::external_body]
fn render_outside(value: &Json) -> (r: Option<String>)
    requires
        value@.writable(),
    ensures
        r is Some,
        r matches Some(text) ==> text@ == json_value_text(value@),
{
    serde_json::to_string(&json_to_outside(value)).ok()
}

/// Why a text could not be read as, or a document written to, JSON text.
#[derive(Clone, Copy, Debug, PartialEq, Eq, Structural)]
pub enum SyntaxError {
    /// The text is not one JSON document.
    Malformed,
    /// The document holds a number as a text that is not that of a number.
    Unwritable,
}

impl JsonNumber {
    /// Whether the number can be written.
    pub fn is_writable(&self) -> (r: bool)
        ensures
            r == self@.writable(),
    {
        match self {
            JsonNumber::Decimal(text) => decimal_outside(text.as_str()).is_some(),
            _ => true,
        }
    }
}

impl JsonObject {
    /// Whether every value that the object's members hold can be written.
    pub fn is_writable(&self) -> (r: bool)
        ensures
            r == object_writable(self@),
        decreases self,
    {
        let mut i: usize = 0;
        while i < self.fields.len()
            invariant
                i <= self.fields@.len(),
                forall|j: int| 0 <= j < i ==> (#[trigger] self@[j]).1.writable(),
                forall|j: int|
                    0 <= j < self.fields@.len() ==> decreases_to!(self => self.fields@[j].value),
            decreases self.fields@.len() - i,
        {
            if !self.fields[i].value.is_writable() {
                assert(!self@[i as int].1.writable());
                return false;
            }
            i = i + 1;
        }
        true
    }
}

impl Json {
    /// Whether the document can be written as JSON text.
    pub fn is_writable(&self) -> (r: bool)
        ensures
            r == self@.writable(),
        decreases self,
    {
        match self {
            Json::Number(number) => number.is_writable(),
            Json::Array(items) => {
                let mut i: usize = 0;
                while i < items.len()
                    invariant
                        i <= items@.len(),
                        self@ is Array,
                        self@->Array_0.len() == items@.len(),
                        forall|j: int| 0 <= j < items@.len() ==> self@->Array_0[j] == items@[j]@,
                        forall|j: int| 0 <= j < i ==> (#[trigger] self@->Array_0[j]).writable(),
                        forall|j: int| 0 <= j < items@.len() ==> decreases_to!(self => items@[j]),
                    decreases items@.len() - i,
                {
                    if !items[i].is_writable() {
                        assert(!self@->Array_0[i as int].writable());
                        return false;
                    }
                    i = i + 1;
                }
                true
            },
            Json::Object(object) => {
                proof {
                    lemma_object_view(*object);
                }
                object.is_writable()
            },
            _ => true,
        }
    }
}

impl Json {
    /// Reads one JSON document from a text.
    pub fn parse(text: &str) -> (r: Result<Json, SyntaxError>)
        ensures
            match r {
                Ok(value) => json_text_value(text@) == Some(value@),
                Err(e) => e == SyntaxError::Malformed && json_text_value(text@) is None,
            },
    {
        match parse_outside(text) {
            Some(value) => Ok(value),
            None => Err(SyntaxError::Malformed),
        }
    }

    /// Writes the document as JSON text. That fails exactly where the
    /// document cannot be written: where it holds a number as a text that
    /// is not that of a number.
    pub fn render(&self) -> (r: Result<String, SyntaxError>)
        ensures
            match r {
                Ok(text) => self@.writable() && text@ == json_value_text(self@),
                Err(e) => !self@.writable() && e == SyntaxError::Unwritable,
            },
    {
        if !self.is_writable() {
            return Err(SyntaxError::Unwritable);
        }
        match render_outside(self) {
            Some(text) => Ok(text),
            None => Err(SyntaxError::Unwritable),
        }
    }
}

} // verus!
