//! JSON as the protocol uses it: documents are read into lists of members
//! by `serde_json`, and written by composing the texts of their members.

use vstd::prelude::*;
use vstd::string::*;

verus! {

/// The members of a JSON object document, each as its name and the compact
/// JSON text of its value; `None` when the bytes are not a JSON object.
pub uninterp spec fn json_members(doc: Seq<u8>) -> Option<Seq<(Seq<char>, Seq<char>)>>;

/// The text a JSON string document holds; `None` when the bytes are not a
/// JSON string.
pub uninterp spec fn json_string(doc: Seq<u8>) -> Option<Seq<char>>;

/// The number a JSON integer document holds; `None` when the bytes are not
/// a JSON integer that fits 64 signed bits.
pub uninterp spec fn json_integer(doc: Seq<u8>) -> Option<i64>;

/// A text as a JSON string literal, quotes and escapes included.
pub uninterp spec fn json_quoted(text: Seq<char>) -> Seq<char>;

/// One member of a JSON object: its name, and its value as JSON text.
pub struct JsonMember {
    pub name: String,
    pub value: String,
}

impl View for JsonMember {
    type V = (Seq<char>, Seq<char>);

    open spec fn view(&self) -> (Seq<char>, Seq<char>) {
        (self.name@, self.value@)
    }
}

impl JsonMember {
    /// An equal member of its own.
    pub fn duplicate(&self) -> (copy: JsonMember)
        ensures
            copy == *self,
    {
        JsonMember { name: self.name.clone(), value: self.value.clone() }
    }
}

/// The views of a list of members.
pub open spec fn member_views(members: Seq<JsonMember>) -> Seq<(Seq<char>, Seq<char>)> {
    Seq::new(members.len(), |i: int| members[i]@)
}

/// The value of the first member called `name`, if there is one.
pub open spec fn lookup(members: Seq<(Seq<char>, Seq<char>)>, name: Seq<char>) -> Option<
    Seq<char>,
>
    decreases members.len(),
{
    if members.len() == 0 {
        None
    } else if members.first().0 == name {
        Some(members.first().1)
    } else {
        lookup(members.drop_first(), name)
    }
}

/// Texts with a comma between neighbours.
pub open spec fn comma_joined(items: Seq<Seq<char>>) -> Seq<char>
    decreases items.len(),
{
    if items.len() == 0 {
        Seq::empty()
    } else if items.len() == 1 {
        items[0]
    } else {
        comma_joined(items.drop_last()) + seq![','] + items.last()
    }
}

/// The JSON text of one member.
pub open spec fn member_text(member: (Seq<char>, Seq<char>)) -> Seq<char> {
    json_quoted(member.0) + seq![':'] + member.1
}

/// The compact JSON text of an object with the given members, in order.
pub open spec fn object_text(members: Seq<(Seq<char>, Seq<char>)>) -> Seq<char> {
    seq!['{'] + comma_joined(Seq::new(members.len(), |i: int| member_text(members[i]))) + seq![
        '}',
    ]
}

/// The compact JSON text of an array with the given element texts.
pub open spec fn array_text(items: Seq<Seq<char>>) -> Seq<char> {
    seq!['['] + comma_joined(items) + seq![']']
}

/// The compact JSON text of an array of strings.
pub open spec fn string_array_text(items: Seq<Seq<char>>) -> Seq<char> {
    array_text(Seq::new(items.len(), |i: int| json_quoted(items[i])))
}

/// The decimal digits of a natural number.
pub open spec fn decimal_digits(n: nat) -> Seq<char>
    decreases n,
{
    if n < 10 {
        seq![digit_char(n)]
    } else {
        decimal_digits(n / 10) + seq![digit_char(n % 10)]
    }
}

/// The character of a single decimal digit.
pub open spec fn digit_char(d: nat) -> char {
    if d == 0 {
        '0'
    } else if d == 1 {
        '1'
    } else if d == 2 {
        '2'
    } else if d == 3 {
        '3'
    } else if d == 4 {
        '4'
    } else if d == 5 {
        '5'
    } else if d == 6 {
        '6'
    } else if d == 7 {
        '7'
    } else if d == 8 {
        '8'
    } else {
        '9'
    }
}

/// The JSON text of an integer: its decimal digits, after a minus sign if
/// it is negative.
pub open spec fn integer_text(n: int) -> Seq<char> {
    if n < 0 {
        seq!['-'] + decimal_digits((-n) as nat)
    } else {
        decimal_digits(n as nat)
    }
}

/// The JSON text of a truth value.
pub open spec fn boolean_text(b: bool) -> Seq<char> {
    if b {
        "true"@
    } else {
        "false"@
    }
}

/// Calls `serde_json::from_slice` for a `serde_json::Map`, and
/// `serde_json::Value::to_string` on each value. Trusted: the result lists
/// the members of the object that the bytes spell, each value as compact
/// JSON text, and is `None` exactly when the bytes are not a JSON object.
#[verifier::external_body]
pub(crate) fn parse_object(doc: &[u8]) -> (members: Option<Vec<JsonMember>>)
    ensures
        match members {
            Some(m) => json_members(doc@) == Some(member_views(m@)),
            None => json_members(doc@) is None,
        },
{
    let parsed = serde_json::from_slice::<serde_json::Map<String, serde_json::Value>>(doc);
    parsed.ok().map(
        |m| m.into_iter().map(|(name, v)| JsonMember { name, value: v.to_string() }).collect(),
    )
}

/// Calls `serde_json::from_slice` for a `String`. Trusted: the result is
/// the text of the JSON string that the bytes spell, and `None` exactly when
/// they spell no JSON string.
#[verifier::external_body]
pub(crate) fn parse_string(doc: &[u8]) -> (text: Option<String>)
    ensures
        match text {
            Some(t) => json_string(doc@) == Some(t@),
            None => json_string(doc@) is None,
        },
{
    serde_json::from_slice::<String>(doc).ok()
}

/// Calls `serde_json::from_slice` for an `i64`. Trusted: the result is the
/// integer that the bytes spell, and `None` exactly when they spell no
/// integer of that range.
#[verifier::external_body]
pub(crate) fn parse_integer(doc: &[u8]) -> (number: Option<i64>)
    ensures
        number == json_integer(doc@),
{
    serde_json::from_slice::<i64>(doc).ok()
}

/// Calls `serde_json::to_string` on a `str`. Trusted: the result is the
/// JSON string literal for `text`, which reads back as `text`.
/// Serializing a string cannot fail, so the fallback is never taken.
#[verifier::external_body]
pub(crate) fn quote(text: &str) -> (literal: String)
    ensures
        literal@ == json_quoted(text@),
        json_string(vstd::utf8::encode_utf8(literal@)) == Some(text@),
{
    serde_json::to_string(text).unwrap_or_default()
}

/// Finds the value of the first member called `name`.
pub fn find_member<'a>(members: &'a Vec<JsonMember>, name: &str) -> (value: Option<&'a String>)
    ensures
        match value {
            Some(v) => lookup(member_views(members@), name@) == Some(v@),
            None => lookup(member_views(members@), name@) is None,
        },
{
    let mut i: usize = 0;
    let ghost all = member_views(members@);
    proof {
        assert(all.subrange(0, all.len() as int) =~= all);
    }
    while i < members.len()
        invariant
            0 <= i <= members@.len(),
            all == member_views(members@),
            lookup(all, name@) == lookup(all.subrange(i as int, all.len() as int), name@),
        decreases members@.len() - i,
    {
        let ghost rest = all.subrange(i as int, all.len() as int);
        proof {
            assert(rest.first() == members@[i as int]@);
            assert(rest.drop_first() =~= all.subrange(i as int + 1, all.len() as int));
        }
        if crate::text::same_text(members[i].name.as_str(), name) {
            return Some(&members[i].value);
        }
        i += 1;
    }
    None
}

/// A member whose value is given as JSON text.
pub fn raw_member(name: &str, value: String) -> (member: JsonMember)
    ensures
        member@ == (name@, value@),
{
    JsonMember { name: String::from_str(name), value }
}

/// A member whose value is a string.
pub fn string_member(name: &str, value: &str) -> (member: JsonMember)
    ensures
        member@ == (name@, json_quoted(value@)),
        json_string(vstd::utf8::encode_utf8(member.value@)) == Some(value@),
{
    JsonMember { name: String::from_str(name), value: quote(value) }
}

/// A member whose value is an integer.
pub fn integer_member(name: &str, value: i64) -> (member: JsonMember)
    ensures
        member@ == (name@, integer_text(value as int)),
{
    JsonMember { name: String::from_str(name), value: write_integer(value) }
}

/// A member whose value is an unsigned integer.
pub fn unsigned_member(name: &str, value: u64) -> (member: JsonMember)
    ensures
        member@ == (name@, integer_text(value as int)),
{
    JsonMember { name: String::from_str(name), value: write_natural(value) }
}

/// A member whose value is a truth value.
pub fn boolean_member(name: &str, value: bool) -> (member: JsonMember)
    ensures
        member@ == (name@, boolean_text(value)),
{
    let text = if value {
        String::from_str("true")
    } else {
        String::from_str("false")
    };
    JsonMember { name: String::from_str(name), value: text }
}

fn digit_str(d: u64) -> (text: &'static str)
    requires
        d < 10,
    ensures
        text@ == seq![digit_char(d as nat)],
{
    proof {
        reveal_strlit("0");
        reveal_strlit("1");
        reveal_strlit("2");
        reveal_strlit("3");
        reveal_strlit("4");
        reveal_strlit("5");
        reveal_strlit("6");
        reveal_strlit("7");
        reveal_strlit("8");
        reveal_strlit("9");
    }
    let text = if d == 0 {
        "0"
    } else if d == 1 {
        "1"
    } else if d == 2 {
        "2"
    } else if d == 3 {
        "3"
    } else if d == 4 {
        "4"
    } else if d == 5 {
        "5"
    } else if d == 6 {
        "6"
    } else if d == 7 {
        "7"
    } else if d == 8 {
        "8"
    } else {
        "9"
    };
    assert(text@ =~= seq![digit_char(d as nat)]);
    text
}

fn write_natural(n: u64) -> (text: String)
    ensures
        text@ == decimal_digits(n as nat),
    decreases n,
{
    if n < 10 {
        String::from_str(digit_str(n))
    } else {
        let head = write_natural(n / 10);
        head.concat(digit_str(n % 10))
    }
}

/// Writes an integer as JSON text.
pub fn write_integer(n: i64) -> (text: String)
    ensures
        text@ == integer_text(n as int),
{
    if n < 0 {
        let magnitude: u64 = ((-(n + 1)) as u64) + 1;
        proof {
            reveal_strlit("-");
            assert("-"@ =~= seq!['-']);
        }
        String::from_str("-").concat(write_natural(magnitude).as_str())
    } else {
        write_natural(n as u64)
    }
}

/// Joins texts with commas.
fn join_commas(items: &Vec<String>) -> (text: String)
    ensures
        text@ == comma_joined(crate::text::views(items@)),
{
    let mut text = String::new();
    let mut i: usize = 0;
    let ghost all = crate::text::views(items@);
    while i < items.len()
        invariant
            0 <= i <= items@.len(),
            all == crate::text::views(items@),
            text@ == comma_joined(all.subrange(0, i as int)),
        decreases items@.len() - i,
    {
        let ghost done = all.subrange(0, i as int);
        let ghost next = all.subrange(0, i as int + 1);
        proof {
            reveal_strlit(",");
            assert(next.drop_last() =~= done);
            assert(next.last() == items@[i as int]@);
            assert(","@ =~= seq![',']);
        }
        if i > 0 {
            text.append(",");
        } else {
            proof {
                assert(text@ =~= Seq::<char>::empty());
                assert(Seq::<char>::empty() + items@[0]@ =~= items@[0]@);
            }
        }
        text.append(items[i].as_str());
        i += 1;
    }
    proof {
        assert(all.subrange(0, items@.len() as int) =~= all);
    }
    text
}

/// Writes an object with the given members, in order.
pub fn write_object(members: &Vec<JsonMember>) -> (text: String)
    ensures
        text@ == object_text(member_views(members@)),
{
    let mut rendered: Vec<String> = Vec::new();
    let mut i: usize = 0;
    let ghost all = member_views(members@);
    while i < members.len()
        invariant
            0 <= i <= members@.len(),
            all == member_views(members@),
            rendered@.len() == i,
            forall|k: int| 0 <= k < i ==> (#[trigger] rendered@[k])@ == member_text(all[k]),
        decreases members@.len() - i,
    {
        proof {
            reveal_strlit(":");
            assert(":"@ =~= seq![':']);
        }
        let one = quote(members[i].name.as_str()).concat(":").concat(members[i].value.as_str());
        rendered.push(one);
        i += 1;
    }
    proof {
        reveal_strlit("{");
        reveal_strlit("}");
        assert("{"@ =~= seq!['{']);
        assert("}"@ =~= seq!['}']);
        assert(crate::text::views(rendered@) =~= Seq::new(
            all.len(),
            |i: int| member_text(all[i]),
        ));
    }
    String::from_str("{").concat(join_commas(&rendered).as_str()).concat("}")
}

/// Writes an array whose elements are given as JSON texts.
pub fn write_array(items: &Vec<String>) -> (text: String)
    ensures
        text@ == array_text(crate::text::views(items@)),
{
    proof {
        reveal_strlit("[");
        reveal_strlit("]");
        assert("["@ =~= seq!['[']);
        assert("]"@ =~= seq![']']);
    }
    String::from_str("[").concat(join_commas(items).as_str()).concat("]")
}

/// Writes an array of strings.
pub fn write_string_array(items: &Vec<String>) -> (text: String)
    ensures
        text@ == string_array_text(crate::text::views(items@)),
{
    let mut quoted: Vec<String> = Vec::new();
    let mut i: usize = 0;
    while i < items.len()
        invariant
            0 <= i <= items@.len(),
            quoted@.len() == i,
            forall|k: int| 0 <= k < i ==> (#[trigger] quoted@[k])@ == json_quoted(items@[k]@),
        decreases items@.len() - i,
    {
        quoted.push(quote(items[i].as_str()));
        i += 1;
    }
    proof {
        assert(crate::text::views(quoted@) =~= Seq::new(
            items@.len(),
            |i: int| json_quoted(crate::text::views(items@)[i]),
        ));
    }
    write_array(&quoted)
}

} // verus!
