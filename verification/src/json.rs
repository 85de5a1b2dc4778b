//! JSON values.

use crate::text::{decimal, str_eq};
use serde_json::Value;
use vstd::prelude::*;

verus! {

/// A JSON number: a non-negative integer, a negative integer, or the literal
/// of any other number.
#[derive(Clone, Debug)]
pub enum JsonNumber {
    Unsigned(u64),
    Negative(i64),
    Literal(String),
}

/// A JSON value. Of two object members with one name, the later one counts.
#[derive(Debug)]
pub enum JsonValue {
    Null,
    Bool(bool),
    Number(JsonNumber),
    Text(String),
    Array(Vec<JsonValue>),
    Object(Vec<(String, JsonValue)>),
}

/// What a JSON number is.
pub enum NumberView {
    Unsigned(nat),
    Negative(int),
    Literal(Seq<char>),
}

/// What a JSON value is: an object is a finite map from names to values.
pub enum JsonView {
    Null,
    Bool(bool),
    Number(NumberView),
    Text(Seq<char>),
    Array(Seq<JsonView>),
    Object(Map<Seq<char>, JsonView>),
}

impl View for JsonNumber {
    type V = NumberView;

    open spec fn view(&self) -> NumberView {
        match self {
            JsonNumber::Unsigned(n) => NumberView::Unsigned(*n as nat),
            JsonNumber::Negative(n) => NumberView::Negative(*n as int),
            JsonNumber::Literal(s) => NumberView::Literal(s@),
        }
    }
}

impl View for JsonValue {
    type V = JsonView;

    open spec fn view(&self) -> JsonView
    {
        json_view(*self)
    }
}

/// The model of a value.
pub open spec fn json_view(j: JsonValue) -> JsonView
    decreases j,
{
    match j {
        JsonValue::Null => JsonView::Null,
        JsonValue::Bool(b) => JsonView::Bool(b),
        JsonValue::Number(n) => JsonView::Number(n@),
        JsonValue::Text(s) => JsonView::Text(s@),
        JsonValue::Array(v) => JsonView::Array(items_view(v@)),
        JsonValue::Object(v) => JsonView::Object(members_view(v@)),
    }
}

/// The models of the values in `items`.
pub open spec fn items_view(items: Seq<JsonValue>) -> Seq<JsonView>
    decreases items,
{
    Seq::new(
        items.len(),
        |i: int|
            if 0 <= i < items.len() {
                json_view(items[i])
            } else {
                JsonView::Null
            },
    )
}

/// The map that the members spell out, later ones over earlier ones.
pub open spec fn members_view(members: Seq<(String, JsonValue)>) -> Map<Seq<char>, JsonView>
    decreases members,
{
    if members.len() == 0 {
        Map::empty()
    } else {
        members_view(members.drop_last()).insert(
            members.last().0@,
            json_view(members.last().1),
        )
    }
}

/// The model of an array holds the models of its items.
pub proof fn lemma_items(items: Seq<JsonValue>)
    ensures
        items_view(items).len() == items.len(),
        forall|i: int|
            0 <= i < items.len() ==> #[trigger] items_view(items)[i] == json_view(items[i]),
{
    reveal_with_fuel(items_view, 2);
}

/// A member map after one more member.
pub proof fn lemma_members_push(members: Seq<(String, JsonValue)>, m: (String, JsonValue))
    ensures
        members_view(members.push(m)) == members_view(members).insert(m.0@, json_view(m.1)),
{
    assert(members.push(m).drop_last() =~= members);
}

/// A copy of a number.
pub fn clone_number(n: &JsonNumber) -> (r: JsonNumber)
    ensures
        r@ == n@,
{
    match n {
        JsonNumber::Unsigned(n) => JsonNumber::Unsigned(*n),
        JsonNumber::Negative(n) => JsonNumber::Negative(*n),
        JsonNumber::Literal(s) => JsonNumber::Literal(s.clone()),
    }
}

fn clone_items(v: &Vec<JsonValue>) -> (r: Vec<JsonValue>)
    ensures
        items_view(r@) == items_view(v@),
    decreases v, 1int,
{
    let mut out: Vec<JsonValue> = Vec::new();
    let mut i: usize = 0;
    while i < v.len()
        invariant
            i <= v@.len(),
            out@.len() == i,
            forall|k: int| 0 <= k < i ==> json_view(#[trigger] out@[k]) == json_view(v@[k]),
        decreases v@.len() - i,
    {
        assert(decreases_to!(v => v[i as int]));
        let item = clone_value(&v[i]);
        out.push(item);
        i = i + 1;
    }
    proof {
        lemma_items(out@);
        lemma_items(v@);
        assert(items_view(out@) =~= items_view(v@));
    }
    out
}

fn clone_members(v: &Vec<(String, JsonValue)>) -> (r: Vec<(String, JsonValue)>)
    ensures
        members_view(r@) == members_view(v@),
    decreases v, 1int,
{
    let mut out: Vec<(String, JsonValue)> = Vec::new();
    let mut i: usize = 0;
    while i < v.len()
        invariant
            i <= v@.len(),
            members_view(out@) == members_view(v@.take(i as int)),
        decreases v@.len() - i,
    {
        assert(decreases_to!(v => v[i as int]));
        let value = clone_value(&v[i].1);
        let member = (v[i].0.clone(), value);
        proof {
            lemma_members_push(out@, member);
            lemma_members_push(v@.take(i as int), v@[i as int]);
            assert(v@.take(i as int).push(v@[i as int]) =~= v@.take(i + 1));
        }
        out.push(member);
        i = i + 1;
    }
    assert(v@.take(i as int) =~= v@);
    out
}

fn clone_value(j: &JsonValue) -> (r: JsonValue)
    ensures
        r@ == j@,
    decreases j, 0int,
{
    match j {
        JsonValue::Null => JsonValue::Null,
        JsonValue::Bool(b) => JsonValue::Bool(*b),
        JsonValue::Number(n) => JsonValue::Number(clone_number(n)),
        JsonValue::Text(s) => JsonValue::Text(s.clone()),
        JsonValue::Array(v) => JsonValue::Array(clone_items(v)),
        JsonValue::Object(v) => JsonValue::Object(clone_members(v)),
    }
}

impl Clone for JsonValue {
    fn clone(&self) -> (r: JsonValue)
        ensures
            r@ == self@,
    {
        clone_value(self)
    }
}

impl JsonView {
    /// The member of an object under `key`.
    pub open spec fn member(self, key: Seq<char>) -> Option<JsonView> {
        match self {
            JsonView::Object(m) => if m.dom().contains(key) {
                Some(m[key])
            } else {
                None
            },
            _ => None,
        }
    }

    /// The text of a string value.
    pub open spec fn text(self) -> Option<Seq<char>> {
        match self {
            JsonView::Text(s) => Some(s),
            _ => None,
        }
    }

    /// The value of a boolean.
    pub open spec fn boolean(self) -> Option<bool> {
        match self {
            JsonView::Bool(b) => Some(b),
            _ => None,
        }
    }

    /// The value of a non-negative integer.
    pub open spec fn unsigned(self) -> Option<nat> {
        match self {
            JsonView::Number(NumberView::Unsigned(n)) => Some(n),
            _ => None,
        }
    }

    /// The items of an array.
    pub open spec fn items(self) -> Option<Seq<JsonView>> {
        match self {
            JsonView::Array(v) => Some(v),
            _ => None,
        }
    }

    /// The text under `key`, where the member is a string.
    pub open spec fn text_member(self, key: Seq<char>) -> Option<Seq<char>> {
        match self.member(key) {
            Some(j) => j.text(),
            None => None,
        }
    }

    /// The boolean under `key`, where the member is one.
    pub open spec fn bool_member(self, key: Seq<char>) -> Option<bool> {
        match self.member(key) {
            Some(j) => j.boolean(),
            None => None,
        }
    }

    /// The non-negative integer under `key`, where the member is one.
    pub open spec fn unsigned_member(self, key: Seq<char>) -> Option<nat> {
        match self.member(key) {
            Some(j) => j.unsigned(),
            None => None,
        }
    }

    /// The items under `key`, where the member is an array.
    pub open spec fn items_member(self, key: Seq<char>) -> Option<Seq<JsonView>> {
        match self.member(key) {
            Some(j) => j.items(),
            None => None,
        }
    }

    /// The text under `b` under `a`, where there is one.
    pub open spec fn text_at(self, a: Seq<char>, b: Seq<char>) -> Option<Seq<char>> {
        match self.member(a) {
            Some(j) => j.text_member(b),
            None => None,
        }
    }

    /// The value of an integer that fits into 64 bits with a sign.
    pub open spec fn signed(self) -> Option<int> {
        match self {
            JsonView::Number(NumberView::Unsigned(n)) => if n <= i64::MAX {
                Some(n as int)
            } else {
                None
            },
            JsonView::Number(NumberView::Negative(n)) => Some(n),
            _ => None,
        }
    }

    /// The signed integer under `key`, where the member is one.
    pub open spec fn signed_member(self, key: Seq<char>) -> Option<int> {
        match self.member(key) {
            Some(j) => j.signed(),
            None => None,
        }
    }

    /// The optional text under `key`: none where the member is absent or null;
    /// no answer where it is anything but a string.
    pub open spec fn optional_text_member(self, key: Seq<char>) -> Option<Option<Seq<char>>> {
        match self.member(key) {
            None => Some(None),
            Some(JsonView::Null) => Some(None),
            Some(JsonView::Text(s)) => Some(Some(s)),
            Some(_) => None,
        }
    }

    /// The optional number under `key`: none where the member is absent or
    /// null; no answer where it is anything but a 64-bit unsigned integer.
    pub open spec fn optional_unsigned_member(self, key: Seq<char>) -> Option<Option<u64>> {
        match self.member(key) {
            None => Some(None),
            Some(JsonView::Null) => Some(None),
            Some(JsonView::Number(NumberView::Unsigned(n))) => if n <= u64::MAX {
                Some(Some(n as u64))
            } else {
                None
            },
            Some(_) => None,
        }
    }
}

/// The last member under a name is the one that counts.
pub proof fn lemma_member_found(members: Seq<(String, JsonValue)>, i: int, key: Seq<char>)
    requires
        0 <= i < members.len(),
        members[i].0@ == key,
        forall|k: int| i < k < members.len() ==> (#[trigger] members[k]).0@ != key,
    ensures
        members_view(members).dom().contains(key),
        members_view(members)[key] == json_view(members[i].1),
    decreases members.len(),
{
    if i < members.len() - 1 {
        lemma_member_found(members.drop_last(), i, key);
        assert(members.last() == members[members.len() - 1]);
    }
}

/// A name that no member carries is not in the map.
pub proof fn lemma_member_absent(members: Seq<(String, JsonValue)>, key: Seq<char>)
    requires
        forall|k: int| 0 <= k < members.len() ==> (#[trigger] members[k]).0@ != key,
    ensures
        !members_view(members).dom().contains(key),
    decreases members.len(),
{
    if members.len() > 0 {
        assert(members.last() == members[members.len() - 1]);
        assert forall|k: int| 0 <= k < members.drop_last().len() implies (
        #[trigger] members.drop_last()[k]).0@ != key by {
            assert(members.drop_last()[k] == members[k]);
        }
        lemma_member_absent(members.drop_last(), key);
    }
}

/// Replacing the value of the last member under a name.
pub proof fn lemma_member_replaced(members: Seq<(String, JsonValue)>, i: int, m: (String, JsonValue))
    requires
        0 <= i < members.len(),
        members[i].0@ == m.0@,
        forall|k: int| i < k < members.len() ==> (#[trigger] members[k]).0@ != m.0@,
    ensures
        members_view(members.update(i, m)) == members_view(members).insert(m.0@, json_view(m.1)),
    decreases members.len(),
{
    let updated = members.update(i, m);
    if i == members.len() - 1 {
        assert(updated.drop_last() =~= members.drop_last());
        assert(members_view(updated) =~= members_view(members).insert(m.0@, json_view(m.1)));
    } else {
        lemma_member_replaced(members.drop_last(), i, m);
        assert(updated.drop_last() =~= members.drop_last().update(i, m));
        assert(updated.last() == members[members.len() - 1]);
        assert(members_view(updated) =~= members_view(members).insert(m.0@, json_view(m.1)));
    }
}

/// The index of the last member under `key`; the length when there is none.
fn member_index(members: &Vec<(String, JsonValue)>, key: &str) -> (r: usize)
    ensures
        r <= members@.len(),
        r < members@.len() ==> members@[r as int].0@ == key@ && forall|k: int|
            r < k < members@.len() ==> (#[trigger] members@[k]).0@ != key@,
        r == members@.len() ==> forall|k: int|
            0 <= k < members@.len() ==> (#[trigger] members@[k]).0@ != key@,
{
    let mut i: usize = members.len();
    while i > 0
        invariant
            i <= members@.len(),
            forall|k: int| i <= k < members@.len() ==> (#[trigger] members@[k]).0@ != key@,
        decreases i,
    {
        i = i - 1;
        if str_eq(members[i].0.as_str(), key) {
            return i;
        }
    }
    members.len()
}

impl JsonValue {
    /// The text value `s`.
    pub fn text(s: &str) -> (r: JsonValue)
        ensures
            r@ == JsonView::Text(s@),
    {
        JsonValue::Text(s.to_owned())
    }

    /// The number `n`.
    pub fn unsigned(n: u64) -> (r: JsonValue)
        ensures
            r@ == JsonView::Number(NumberView::Unsigned(n as nat)),
    {
        JsonValue::Number(JsonNumber::Unsigned(n))
    }

    /// The number `n`.
    pub fn signed(n: i64) -> (r: JsonValue)
        ensures
            r@ == integer(n as int),
    {
        if n >= 0 {
            JsonValue::Number(JsonNumber::Unsigned(n as u64))
        } else {
            JsonValue::Number(JsonNumber::Negative(n))
        }
    }

    /// The text, or null.
    pub fn optional_text(s: &Option<String>) -> (r: JsonValue)
        ensures
            r@ == optional_text(s.deep_view()),
    {
        match s {
            Some(s) => JsonValue::Text(s.clone()),
            None => JsonValue::Null,
        }
    }

    /// The number, or null.
    pub fn optional_unsigned(n: Option<u64>) -> (r: JsonValue)
        ensures
            r@ == optional_unsigned(n),
    {
        match n {
            Some(n) => JsonValue::unsigned(n),
            None => JsonValue::Null,
        }
    }

    /// The member of an object under `key`.
    pub fn get(&self, key: &str) -> (r: Option<&JsonValue>)
        ensures
            r is Some == self@.member(key@) is Some,
            r is Some ==> r->0@ == self@.member(key@)->0,
    {
        match self {
            JsonValue::Object(members) => {
                let i: usize = member_index(members, key);
                if i < members.len() {
                    proof {
                        lemma_member_found(members@, i as int, key@);
                    }
                    Some(&members[i].1)
                } else {
                    proof {
                        lemma_member_absent(members@, key@);
                    }
                    None
                }
            },
            _ => None,
        }
    }

    /// The text of a string value.
    pub fn as_str(&self) -> (r: Option<&str>)
        ensures
            r is Some == self@.text() is Some,
            r is Some ==> r->0@ == self@.text()->0,
    {
        match self {
            JsonValue::Text(s) => Some(s.as_str()),
            _ => None,
        }
    }

    /// The value of a boolean.
    pub fn as_bool(&self) -> (r: Option<bool>)
        ensures
            r == self@.boolean(),
    {
        match self {
            JsonValue::Bool(b) => Some(*b),
            _ => None,
        }
    }

    /// The value of a non-negative integer.
    pub fn as_u64(&self) -> (r: Option<u64>)
        ensures
            r is Some == self@.unsigned() is Some,
            r is Some ==> r->0 == self@.unsigned()->0,
    {
        match self {
            JsonValue::Number(JsonNumber::Unsigned(n)) => Some(*n),
            _ => None,
        }
    }

    /// The items of an array.
    pub fn as_array(&self) -> (r: Option<&Vec<JsonValue>>)
        ensures
            r is Some == self@.items() is Some,
            r is Some ==> items_view(r->0@) == self@.items()->0,
    {
        match self {
            JsonValue::Array(items) => Some(items),
            _ => None,
        }
    }

    /// The text under `key`, where the member is a string.
    pub fn get_str(&self, key: &str) -> (r: Option<&str>)
        ensures
            r is Some == self@.text_member(key@) is Some,
            r is Some ==> r->0@ == self@.text_member(key@)->0,
    {
        match self.get(key) {
            Some(j) => j.as_str(),
            None => None,
        }
    }

    /// The boolean under `key`, where the member is one.
    pub fn get_bool(&self, key: &str) -> (r: Option<bool>)
        ensures
            r == self@.bool_member(key@),
    {
        match self.get(key) {
            Some(j) => j.as_bool(),
            None => None,
        }
    }

    /// The non-negative integer under `key`, where the member is one.
    pub fn get_u64(&self, key: &str) -> (r: Option<u64>)
        ensures
            r is Some == self@.unsigned_member(key@) is Some,
            r is Some ==> r->0 == self@.unsigned_member(key@)->0,
    {
        match self.get(key) {
            Some(j) => j.as_u64(),
            None => None,
        }
    }

    /// The items under `key`, where the member is an array.
    pub fn get_array(&self, key: &str) -> (r: Option<&Vec<JsonValue>>)
        ensures
            r is Some == self@.items_member(key@) is Some,
            r is Some ==> items_view(r->0@) == self@.items_member(key@)->0,
    {
        match self.get(key) {
            Some(j) => j.as_array(),
            None => None,
        }
    }

    /// The text under `b` under `a`, where there is one.
    pub fn get_str_at(&self, a: &str, b: &str) -> (r: Option<&str>)
        ensures
            r is Some == self@.text_at(a@, b@) is Some,
            r is Some ==> r->0@ == self@.text_at(a@, b@)->0,
    {
        match self.get(a) {
            Some(j) => j.get_str(b),
            None => None,
        }
    }

    /// The signed integer under `key`, where the member is one.
    pub fn get_i64(&self, key: &str) -> (r: Option<i64>)
        ensures
            r is Some == self@.signed_member(key@) is Some,
            r is Some ==> r->0 == self@.signed_member(key@)->0,
    {
        match self.get(key) {
            Some(JsonValue::Number(JsonNumber::Unsigned(n))) => if *n <= i64::MAX as u64 {
                Some(*n as i64)
            } else {
                None
            },
            Some(JsonValue::Number(JsonNumber::Negative(n))) => Some(*n),
            _ => None,
        }
    }

    /// A copy of the text under `key`, where the member is a string.
    pub fn get_text(&self, key: &str) -> (r: Option<String>)
        ensures
            r.deep_view() == self@.text_member(key@),
    {
        match self.get_str(key) {
            Some(s) => Some(s.to_owned()),
            None => None,
        }
    }

    /// The optional text under `key`: none where the member is absent or null;
    /// no answer where it is anything but a string.
    pub fn get_optional_str(&self, key: &str) -> (r: Option<Option<String>>)
        ensures
            r.deep_view() == self@.optional_text_member(key@),
    {
        match self.get(key) {
            None => Some(None),
            Some(JsonValue::Null) => Some(None),
            Some(JsonValue::Text(s)) => Some(Some(s.clone())),
            Some(_) => None,
        }
    }

    /// The optional number under `key`: none where the member is absent or
    /// null; no answer where it is anything but a 64-bit unsigned integer.
    pub fn get_optional_u64(&self, key: &str) -> (r: Option<Option<u64>>)
        ensures
            r == self@.optional_unsigned_member(key@),
    {
        match self.get(key) {
            None => Some(None),
            Some(JsonValue::Null) => Some(None),
            Some(JsonValue::Number(JsonNumber::Unsigned(n))) => Some(Some(*n)),
            Some(_) => None,
        }
    }

    /// True of an object.
    pub fn is_object(&self) -> (r: bool)
        ensures
            r == (self@ is Object),
    {
        matches!(self, JsonValue::Object(_))
    }
}

/// The JSON form of an optional text.
pub open spec fn optional_text(s: Option<Seq<char>>) -> JsonView {
    match s {
        Some(s) => JsonView::Text(s),
        None => JsonView::Null,
    }
}

/// The JSON form of an optional number.
pub open spec fn optional_unsigned(n: Option<u64>) -> JsonView {
    match n {
        Some(n) => JsonView::Number(NumberView::Unsigned(n as nat)),
        None => JsonView::Null,
    }
}

/// The JSON form of an integer.
pub open spec fn integer(n: int) -> JsonView {
    if n >= 0 {
        JsonView::Number(NumberView::Unsigned(n as nat))
    } else {
        JsonView::Number(NumberView::Negative(n))
    }
}

/// The JSON form of a number.
pub open spec fn number(n: nat) -> JsonView {
    JsonView::Number(NumberView::Unsigned(n))
}

/// An object under construction.
pub struct JsonObject {
    pub members: Vec<(String, JsonValue)>,
}

impl View for JsonObject {
    type V = Map<Seq<char>, JsonView>;

    open spec fn view(&self) -> Map<Seq<char>, JsonView> {
        members_view(self.members@)
    }
}

impl JsonObject {
    /// An object without members.
    pub fn new() -> (r: JsonObject)
        ensures
            r@ == Map::<Seq<char>, JsonView>::empty(),
    {
        JsonObject { members: Vec::new() }
    }

    /// Sets the member under `key`.
    pub fn put(&mut self, key: &str, value: JsonValue)
        ensures
            final(self)@ == old(self)@.insert(key@, value@),
    {
        let i: usize = member_index(&self.members, key);
        let member = (key.to_owned(), value);
        if i < self.members.len() {
            proof {
                lemma_member_replaced(self.members@, i as int, member);
            }
            self.members.set(i, member);
        } else {
            proof {
                lemma_members_push(self.members@, member);
            }
            self.members.push(member);
        }
    }

    /// Sets the member under `key` to a text.
    pub fn put_text(&mut self, key: &str, value: &str)
        ensures
            final(self)@ == old(self)@.insert(key@, JsonView::Text(value@)),
    {
        self.put(key, JsonValue::text(value));
    }

    /// Sets the member under `key` to a number.
    pub fn put_unsigned(&mut self, key: &str, value: u64)
        ensures
            final(self)@ == old(self)@.insert(key@, number(value as nat)),
    {
        self.put(key, JsonValue::unsigned(value));
    }

    /// Sets the member under `key` to a boolean.
    pub fn put_bool(&mut self, key: &str, value: bool)
        ensures
            final(self)@ == old(self)@.insert(key@, JsonView::Bool(value)),
    {
        self.put(key, JsonValue::Bool(value));
    }

    /// The finished object.
    pub fn finish(self) -> (r: JsonValue)
        ensures
            r@ == JsonView::Object(self@),
    {
        JsonValue::Object(self.members)
    }
}

fn same_number(a: &JsonNumber, b: &JsonNumber) -> (r: bool)
    ensures
        r == (a@ == b@),
{
    match (a, b) {
        (JsonNumber::Unsigned(x), JsonNumber::Unsigned(y)) => *x == *y,
        (JsonNumber::Negative(x), JsonNumber::Negative(y)) => *x == *y,
        (JsonNumber::Literal(x), JsonNumber::Literal(y)) => str_eq(x.as_str(), y.as_str()),
        _ => false,
    }
}

fn same_items(a: &Vec<JsonValue>, b: &Vec<JsonValue>) -> (r: bool)
    ensures
        r == (items_view(a@) == items_view(b@)),
    decreases a, 1int,
{
    proof {
        lemma_items(a@);
        lemma_items(b@);
    }
    if a.len() != b.len() {
        return false;
    }
    let mut i: usize = 0;
    while i < a.len()
        invariant
            i <= a@.len(),
            a@.len() == b@.len(),
            forall|k: int|
                0 <= k < a@.len() ==> #[trigger] items_view(a@)[k] == json_view(a@[k]),
            forall|k: int|
                0 <= k < b@.len() ==> #[trigger] items_view(b@)[k] == json_view(b@[k]),
            forall|k: int| 0 <= k < i ==> #[trigger] items_view(a@)[k] == items_view(b@)[k],
        decreases a@.len() - i,
    {
        assert(decreases_to!(a => a[i as int]));
        if !same_value(&a[i], &b[i]) {
            assert(items_view(a@)[i as int] != items_view(b@)[i as int]);
            return false;
        }
        i = i + 1;
    }
    assert(items_view(a@) =~= items_view(b@));
    true
}

proof fn lemma_member_key(members: Seq<(String, JsonValue)>, i: int)
    requires
        0 <= i < members.len(),
    ensures
        members_view(members).dom().contains(members[i].0@),
    decreases members.len(),
{
    if i < members.len() - 1 {
        lemma_member_key(members.drop_last(), i);
    }
}

proof fn lemma_member_index(members: Seq<(String, JsonValue)>, key: Seq<char>) -> (i: int)
    requires
        members_view(members).dom().contains(key),
    ensures
        0 <= i < members.len(),
        members[i].0@ == key,
    decreases members.len(),
{
    if members.last().0@ == key {
        members.len() - 1
    } else {
        lemma_member_index(members.drop_last(), key)
    }
}

fn same_members(a: &Vec<(String, JsonValue)>, b: &Vec<(String, JsonValue)>) -> (r: bool)
    ensures
        r == (members_view(a@) == members_view(b@)),
    decreases a, 1int,
{
    let ghost x = members_view(a@);
    let ghost y = members_view(b@);
    let mut i: usize = 0;
    while i < a.len()
        invariant
            i <= a@.len(),
            x == members_view(a@),
            y == members_view(b@),
            forall|k: int|
                0 <= k < i ==> x.dom().contains((#[trigger] a@[k]).0@) && y.dom().contains(
                    a@[k].0@,
                ) && x[a@[k].0@] == y[a@[k].0@],
        decreases a@.len() - i,
    {
        let ia: usize = member_index(a, a[i].0.as_str());
        let ib: usize = member_index(b, a[i].0.as_str());
        proof {
            lemma_member_key(a@, i as int);
            if ia == a@.len() {
                lemma_member_absent(a@, a@[i as int].0@);
            }
            lemma_member_found(a@, ia as int, a@[i as int].0@);
            if ib == b@.len() {
                lemma_member_absent(b@, a@[i as int].0@);
            } else {
                lemma_member_found(b@, ib as int, a@[i as int].0@);
            }
            assert(decreases_to!(a => a[ia as int]));
        }
        if ib == b.len() {
            return false;
        }
        if !same_value(&a[ia].1, &b[ib].1) {
            return false;
        }
        i = i + 1;
    }
    let mut j: usize = 0;
    while j < b.len()
        invariant
            j <= b@.len(),
            x == members_view(a@),
            y == members_view(b@),
            forall|k: int| 0 <= k < j ==> x.dom().contains((#[trigger] b@[k]).0@),
        decreases b@.len() - j,
    {
        let ia: usize = member_index(a, b[j].0.as_str());
        proof {
            lemma_member_key(b@, j as int);
            if ia == a@.len() {
                lemma_member_absent(a@, b@[j as int].0@);
            } else {
                lemma_member_found(a@, ia as int, b@[j as int].0@);
            }
        }
        if ia == a.len() {
            return false;
        }
        j = j + 1;
    }
    proof {
        assert forall|key: Seq<char>| x.dom().contains(key) <==> y.dom().contains(key) by {
            if x.dom().contains(key) {
                let k = lemma_member_index(a@, key);
                assert(a@[k].0@ == key);
            }
            if y.dom().contains(key) {
                let k = lemma_member_index(b@, key);
                assert(b@[k].0@ == key);
            }
        }
        assert forall|key: Seq<char>| x.dom().contains(key) implies x[key] == y[key] by {
            let k = lemma_member_index(a@, key);
            assert(a@[k].0@ == key);
        }
        assert(x =~= y);
    }
    true
}

/// True when both values are the same. The order of an object's members does
/// not count.
pub fn same_value(a: &JsonValue, b: &JsonValue) -> (r: bool)
    ensures
        r == (a@ == b@),
    decreases a, 0int,
{
    match (a, b) {
        (JsonValue::Null, JsonValue::Null) => true,
        (JsonValue::Bool(x), JsonValue::Bool(y)) => *x == *y,
        (JsonValue::Number(x), JsonValue::Number(y)) => same_number(x, y),
        (JsonValue::Text(x), JsonValue::Text(y)) => str_eq(x.as_str(), y.as_str()),
        (JsonValue::Array(x), JsonValue::Array(y)) => same_items(x, y),
        (JsonValue::Object(x), JsonValue::Object(y)) => same_members(x, y),
        _ => false,
    }
}

/// The values of serde_json.
#[verifier::external_type_specification]
#[verifier::external_body]
pub struct ExSerdeValue(serde_json::Value);

/// A value as serde_json holds it, part by part: of two members with one name
/// the later one, and null for the literal of a number that is none. Nothing is
/// promised of it here: it is only shown, by `notation`.
#[verifier::external_body]
fn serde_value(j: &JsonValue) -> (r: Value) {
    match j {
        JsonValue::Null => Value::Null,
        JsonValue::Bool(b) => Value::Bool(*b),
        JsonValue::Number(JsonNumber::Unsigned(n)) => Value::from(*n),
        JsonValue::Number(JsonNumber::Negative(n)) => Value::from(*n),
        JsonValue::Number(JsonNumber::Literal(s)) => s.parse().map_or(Value::Null, Value::Number),
        JsonValue::Text(s) => Value::String(s.clone()),
        JsonValue::Array(v) => Value::Array(v.iter().map(serde_value).collect()),
        JsonValue::Object(v) => Value::Object(
            v.iter().map(|m| (m.0.clone(), serde_value(&m.1))).collect()),
    }
}

/// What the `Display` of `serde_json::Value` writes for a value.
pub uninterp spec fn value_notation(j: JsonView) -> Seq<char>;

/// The `Display` of `serde_json::Value`: the compact JSON notation of a value,
/// with the members of an object in the order of their names. Null, booleans
/// and non-negative integers are written as JSON writes them.
#[verifier::external_body]
pub(crate) fn notation(j: &JsonValue) -> (r: String)
    ensures
        r@ == value_notation(j@),
        j@ is Null ==> r@ == "null"@,
        j@ is Bool ==> r@ == (if j@->Bool_0 {
            "true"@
        } else {
            "false"@
        }),
        j@ is Number && j@->Number_0 is Unsigned ==> r@ == decimal(j@->Number_0->Unsigned_0),
{
    serde_value(j).to_string()
}

/// The library's form of a value of serde_json, part by part. Nothing is
/// promised of it here: it only hands on what `parse_json` read.
#[verifier::external_body]
fn library_value(v: &Value) -> (r: JsonValue) {
    match v {
        Value::Null => JsonValue::Null,
        Value::Bool(b) => JsonValue::Bool(*b),
        Value::Number(n) => JsonValue::Number(
            n.as_u64().map(JsonNumber::Unsigned).or(n.as_i64().map(JsonNumber::Negative))
                .unwrap_or_else(|| JsonNumber::Literal(n.to_string()))),
        Value::String(s) => JsonValue::Text(s.clone()),
        Value::Array(v) => JsonValue::Array(v.iter().map(library_value).collect()),
        Value::Object(m) => JsonValue::Object(
            m.iter().map(|m| (m.0.clone(), library_value(m.1))).collect()),
    }
}

/// What `serde_json::from_slice` reads in some bytes: a value, or the text of
/// its complaint.
pub uninterp spec fn json_in(bytes: Seq<u8>) -> Result<JsonView, Seq<char>>;

/// `serde_json::from_slice` into a `serde_json::Value`: the value that the bytes
/// spell out, or the text of the complaint.
#[verifier::external_body]
pub(crate) fn parse_json(bytes: &[u8]) -> (r: Result<JsonValue, String>)
    ensures
        parsed_view(r) == json_in(bytes@),
{
    match serde_json::from_slice::<Value>(bytes) {
        Ok(v) => Ok(library_value(&v)),
        Err(e) => Err(e.to_string()),
    }
}

/// What a parse came to.
pub open spec fn parsed_view(parsed: Result<JsonValue, String>) -> Result<JsonView, Seq<char>> {
    match parsed {
        Ok(j) => Ok(j@),
        Err(complaint) => Err(complaint@),
    }
}

} // verus!
