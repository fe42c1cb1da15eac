//! JSON values as the wire codec sees them, and the two calls into
//! `serde_json` that the codec rests on: reading a text and quoting a string.

use vstd::prelude::*;

verus! {

/// A JSON value. Numbers are kept as the text `serde_json` prints for them;
/// the members of an object are kept in the order `serde_json` yields them.
#[derive(Eq, PartialEq, Debug)]
pub enum Json {
    Null,
    Bool(bool),
    Number(String),
    Text(String),
    Array(Vec<Json>),
    Object(Vec<(String, Json)>),
}

#[verifier::external_type_specification]
#[verifier::external_body]
pub struct ExJsonValue(serde_json::Value);

#[verifier::external_type_specification]
#[verifier::external_body]
pub struct ExJsonError(serde_json::Error);

/// The value that `serde_json::from_str` reads from a text, `None` where it
/// reports an error.
pub uninterp spec fn json_reading(text: Seq<char>) -> Option<Json>;

/// What a `serde_json::Value` holds, written as a [`Json`].
pub uninterp spec fn value_tree(value: serde_json::Value) -> Json;

/// The character of a hexadecimal digit, in lower case.
pub open spec fn hex_digit(n: int) -> char {
    if n == 0 {
        '0'
    } else if n == 1 {
        '1'
    } else if n == 2 {
        '2'
    } else if n == 3 {
        '3'
    } else if n == 4 {
        '4'
    } else if n == 5 {
        '5'
    } else if n == 6 {
        '6'
    } else if n == 7 {
        '7'
    } else if n == 8 {
        '8'
    } else if n == 9 {
        '9'
    } else if n == 10 {
        'a'
    } else if n == 11 {
        'b'
    } else if n == 12 {
        'c'
    } else if n == 13 {
        'd'
    } else if n == 14 {
        'e'
    } else {
        'f'
    }
}

/// True for the characters that stand for themselves inside a JSON string:
/// all but the double quote, the backslash and the control characters
/// below the space.
pub open spec fn is_plain(c: char) -> bool {
    c != '"' && c != '\\' && (c as int) >= 32
}

/// What stands for a character inside a JSON string: the character itself,
/// a backslash and a letter for the quote, the backslash and the five
/// named control characters, and `\u00` with two hexadecimal digits for
/// any other control character.
pub open spec fn escape_of(c: char) -> Seq<char> {
    if c == '"' {
        seq!['\\', '"']
    } else if c == '\\' {
        seq!['\\', '\\']
    } else if c == '\u{8}' {
        seq!['\\', 'b']
    } else if c == '\t' {
        seq!['\\', 't']
    } else if c == '\n' {
        seq!['\\', 'n']
    } else if c == '\u{c}' {
        seq!['\\', 'f']
    } else if c == '\r' {
        seq!['\\', 'r']
    } else if (c as int) < 32 {
        seq!['\\', 'u', '0', '0', hex_digit((c as int) / 16), hex_digit((c as int) % 16)]
    } else {
        seq![c]
    }
}

/// A text with each character replaced by what stands for it inside a JSON
/// string.
pub open spec fn escaped(text: Seq<char>) -> Seq<char>
    decreases text.len(),
{
    if text.len() == 0 {
        Seq::empty()
    } else {
        escaped(text.drop_last()) + escape_of(text.last())
    }
}

/// The JSON string literal of a text: the escaped text between double
/// quotes.
pub open spec fn json_quoted(text: Seq<char>) -> Seq<char> {
    seq!['"'] + escaped(text) + seq!['"']
}

/// Calls `serde_json::from_str` for a `serde_json::Value`. The contract only
/// ties the outcome to [`json_reading`]: an error there is `None` here, and a
/// value is the one whose content [`value_tree`] names.
#[verifier::external_body]
fn parse_value(text: &str) -> (r: Result<serde_json::Value, serde_json::Error>)
    ensures
        match r {
            Ok(v) => json_reading(text@) == Some(value_tree(v)),
            Err(_) => json_reading(text@) is None,
        },
{
    serde_json::from_str::<serde_json::Value>(text)
}

/// Takes a `serde_json::Value` apart, variant by variant, into a [`Json`].
/// A number becomes the text of `Number::to_string`; the members of an object
/// come in the order of `Map::into_iter`.
#[verifier::external_body]
fn lift_value(value: serde_json::Value) -> (j: Json)
    ensures
        j == value_tree(value),
{
    match value {
        serde_json::Value::Null => Json::Null,
        serde_json::Value::Bool(b) => Json::Bool(b),
        serde_json::Value::Number(n) => Json::Number(n.to_string()),
        serde_json::Value::String(s) => Json::Text(s),
        serde_json::Value::Array(a) => Json::Array(a.into_iter().map(lift_value).collect()),
        serde_json::Value::Object(m) => Json::Object(
            m.into_iter().map(|(k, v)| (k, lift_value(v))).collect(),
        ),
    }
}

/// Calls `serde_json::to_string` on a string slice, which cannot fail for a
/// string. The result is the literal that [`json_quoted`] states: the
/// compact formatter of `serde_json` writes a double quote, each character
/// by its escape table, and a double quote.
#[verifier::external_body]
pub(crate) fn quote(text: &str) -> (r: String)
    ensures
        r@ == json_quoted(text@),
{
    serde_json::to_string(text).unwrap_or_default()
}

/// Reads one JSON value from a text.
pub fn read_json(text: &str) -> (r: Option<Json>)
    ensures
        r == json_reading(text@),
{
    match parse_value(text) {
        Ok(v) => Some(lift_value(v)),
        Err(_) => None,
    }
}

/// The value stored under `key` among the members of an object: the first
/// member with that name.
pub open spec fn find_member(members: Seq<(String, Json)>, key: Seq<char>) -> Option<Json>
    decreases members.len(),
{
    if members.len() == 0 {
        None
    } else if members[0].0@ == key {
        Some(members[0].1)
    } else {
        find_member(members.skip(1), key)
    }
}

/// The member `key` of a JSON object; `None` for a missing member and for a
/// value that is no object.
pub open spec fn member(j: Json, key: Seq<char>) -> Option<Json> {
    match j {
        Json::Object(members) => find_member(members@, key),
        _ => None,
    }
}

/// The text of a JSON string; `None` for any other value.
pub open spec fn text_of(j: Json) -> Option<Seq<char>> {
    match j {
        Json::Text(s) => Some(s@),
        _ => None,
    }
}

/// The text of the string member `key` of an object.
pub open spec fn text_member(j: Json, key: Seq<char>) -> Option<Seq<char>> {
    match member(j, key) {
        Some(v) => text_of(v),
        None => None,
    }
}

/// True when every value of the sequence is a JSON string.
pub open spec fn all_text(items: Seq<Json>) -> bool {
    forall|i: int| 0 <= i < items.len() ==> (#[trigger] items[i]) is Text
}

/// The texts of a JSON array of strings; `None` for anything else.
pub open spec fn texts_of(j: Json) -> Option<Seq<Seq<char>>> {
    match j {
        Json::Array(items) => if all_text(items@) {
            Some(Seq::new(items@.len(), |i: int| items@[i]->Text_0@))
        } else {
            None
        },
        _ => None,
    }
}

impl Json {
    /// Looks up a member of an object by name.
    pub fn get(&self, key: &str) -> (r: Option<&Json>)
        ensures
            match r {
                Some(v) => member(*self, key@) == Some(*v),
                None => member(*self, key@) is None,
            },
    {
        match self {
            Json::Object(members) => {
                let mut i: usize = 0;
                assert(members@.skip(0) =~= members@);
                while i < members.len()
                    invariant
                        *self == Json::Object(*members),
                        i <= members@.len(),
                        find_member(members@, key@) == find_member(members@.skip(i as int), key@),
                    decreases members@.len() - i,
                {
                    let ghost rest = members@.skip(i as int);
                    assert(rest[0] == members@[i as int]);
                    assert(rest.skip(1) =~= members@.skip(i + 1));
                    if str_equal(members[i].0.as_str(), key) {
                        assert(find_member(rest, key@) == Some(rest[0].1));
                        return Some(&members[i].1);
                    }
                    i += 1;
                }
                None
            },
            _ => None,
        }
    }

    /// The text of a JSON string.
    pub fn as_text(&self) -> (r: Option<String>)
        ensures
            match r {
                Some(s) => text_of(*self) == Some(s@),
                None => text_of(*self) is None,
            },
    {
        match self {
            Json::Text(s) => Some(s.clone()),
            _ => None,
        }
    }

    /// The text of the string member `key` of an object.
    pub fn get_text(&self, key: &str) -> (r: Option<String>)
        ensures
            match r {
                Some(s) => text_member(*self, key@) == Some(s@),
                None => text_member(*self, key@) is None,
            },
    {
        match self.get(key) {
            Some(v) => v.as_text(),
            None => None,
        }
    }

    /// The texts of a JSON array of strings.
    pub fn as_texts(&self) -> (r: Option<Vec<String>>)
        ensures
            match r {
                Some(v) => texts_of(*self) == Some(texts_view(v@)),
                None => texts_of(*self) is None,
            },
    {
        match self {
            Json::Array(items) => {
                let mut out: Vec<String> = Vec::new();
                let mut i: usize = 0;
                while i < items.len()
                    invariant
                        *self == Json::Array(*items),
                        i <= items@.len(),
                        out@.len() == i,
                        forall|k: int| 0 <= k < i ==> (#[trigger] items@[k]) is Text,
                        forall|k: int| 0 <= k < i ==> (#[trigger] out@[k])@ == items@[k]->Text_0@,
                    decreases items@.len() - i,
                {
                    match &items[i] {
                        Json::Text(s) => {
                            out.push(s.clone());
                        },
                        _ => {
                            assert(!(items@[i as int] is Text));
                            assert(!all_text(items@));
                            return None;
                        },
                    }
                    i += 1;
                }
                assert(texts_view(out@) =~= Seq::new(items@.len(), |i: int| items@[i]->Text_0@));
                Some(out)
            },
            _ => None,
        }
    }
}

/// The texts of a sequence of strings.
pub open spec fn texts_view(texts: Seq<String>) -> Seq<Seq<char>> {
    texts.map_values(|s: String| s@)
}

/// The texts of the rows of a table.
pub open spec fn table_view(rows: Seq<Vec<String>>) -> Seq<Seq<Seq<char>>> {
    rows.map_values(|r: Vec<String>| texts_view(r@))
}

/// True when the two strings hold the same text.
pub fn str_equal(a: &str, b: &str) -> (r: bool)
    ensures
        r == (a@ == b@),
{
    let x = a.to_owned();
    let y = b.to_owned();
    x == y
}

/// Texts joined with commas.
pub open spec fn joined(parts: Seq<Seq<char>>) -> Seq<char>
    decreases parts.len(),
{
    if parts.len() == 0 {
        Seq::empty()
    } else if parts.len() == 1 {
        parts[0]
    } else {
        joined(parts.drop_last()) + ","@ + parts.last()
    }
}

/// Joins texts with commas.
pub fn join(parts: &Vec<String>) -> (r: String)
    ensures
        r@ == joined(texts_view(parts@)),
{
    let ghost views = texts_view(parts@);
    let mut text = String::new();
    let mut i: usize = 0;
    assert(views.take(0) =~= Seq::<Seq<char>>::empty());
    while i < parts.len()
        invariant
            i <= parts@.len(),
            views == texts_view(parts@),
            text@ == joined(views.take(i as int)),
        decreases parts@.len() - i,
    {
        assert(views.take(i + 1).drop_last() =~= views.take(i as int));
        assert(views.take(i + 1).last() == parts@[i as int]@);
        if i > 0 {
            text.append(",");
        }
        text.append(parts[i].as_str());
        assert(text@ =~= joined(views.take(i + 1)));
        i += 1;
    }
    assert(views.take(parts@.len() as int) =~= views);
    text
}

/// The JSON array of the string literals of some texts.
pub open spec fn quoted_texts(texts: Seq<Seq<char>>) -> Seq<char> {
    "["@ + joined(texts.map_values(|t: Seq<char>| json_quoted(t))) + "]"@
}

/// Writes texts as a JSON array of strings.
pub fn quote_texts(texts: &Vec<String>) -> (r: String)
    ensures
        r@ == quoted_texts(texts_view(texts@)),
{
    let mut parts: Vec<String> = Vec::new();
    let mut i: usize = 0;
    while i < texts.len()
        invariant
            i <= texts@.len(),
            parts@.len() == i,
            forall|k: int| 0 <= k < i ==> (#[trigger] parts@[k])@ == json_quoted(texts@[k]@),
        decreases texts@.len() - i,
    {
        parts.push(quote(texts[i].as_str()));
        i += 1;
    }
    assert(texts_view(parts@) =~= texts_view(texts@).map_values(|t: Seq<char>| json_quoted(t)));
    let mut text = "[".to_owned();
    let body = join(&parts);
    text.append(body.as_str());
    text.append("]");
    text
}

/// A text of plain characters is quoted by putting it between double
/// quotes: nothing in it is escaped.
pub proof fn lemma_plain_text_quoted(text: Seq<char>)
    requires
        forall|i: int| 0 <= i < text.len() ==> is_plain(#[trigger] text[i]),
    ensures
        escaped(text) == text,
        json_quoted(text) == seq!['"'] + text + seq!['"'],
    decreases text.len(),
{
    if text.len() > 0 {
        let head = text.drop_last();
        assert forall|i: int| 0 <= i < head.len() implies is_plain(#[trigger] head[i]) by {
            assert(head[i] == text[i]);
        }
        lemma_plain_text_quoted(head);
        assert(is_plain(text[text.len() - 1]));
        assert(escape_of(text.last()) == seq![text.last()]);
        assert(head + seq![text.last()] =~= text);
    } else {
        assert(escaped(text) =~= text);
    }
}

} // verus!
