//! Attributes of spans and resources: a key and a typed value.

use crate::text;
use opentelemetry::{Array as OtelArray, Value as OtelValue};
use vstd::prelude::*;

verus! {

/// A list of values of one type.
#[derive(Debug, PartialEq, Eq)]
pub enum Array {
    Bool(Vec<bool>),
    I64(Vec<i64>),
    /// Doubles, each in the notation that [`Value::F64`] uses.
    F64(Vec<String>),
    String(Vec<String>),
}

/// The value of an attribute.
#[derive(Debug, PartialEq, Eq)]
pub enum Value {
    Bool(bool),
    I64(i64),
    /// A double, in the shortest decimal notation that reads back to the same double.
    F64(String),
    String(String),
    Array(Array),
}

/// An attribute: a key and its value.
#[derive(Debug, PartialEq, Eq)]
pub struct KeyValue {
    pub key: String,
    pub value: Value,
}

/// What an [`Array`] holds.
pub enum ArrayView {
    Bool(Seq<bool>),
    I64(Seq<i64>),
    F64(Seq<Seq<char>>),
    String(Seq<Seq<char>>),
}

/// What a [`Value`] holds.
pub enum ValueView {
    Bool(bool),
    I64(i64),
    F64(Seq<char>),
    String(Seq<char>),
    Array(ArrayView),
}

/// What a [`KeyValue`] holds.
pub struct KeyValueView {
    pub key: Seq<char>,
    pub value: ValueView,
}

/// The texts of a list of strings.
pub open spec fn texts(strings: Seq<String>) -> Seq<Seq<char>> {
    strings.map_values(|s: String| s@)
}

impl View for Array {
    type V = ArrayView;

    open spec fn view(&self) -> ArrayView {
        match self {
            Array::Bool(values) => ArrayView::Bool(values@),
            Array::I64(values) => ArrayView::I64(values@),
            Array::F64(values) => ArrayView::F64(texts(values@)),
            Array::String(values) => ArrayView::String(texts(values@)),
        }
    }
}

impl View for Value {
    type V = ValueView;

    open spec fn view(&self) -> ValueView {
        match self {
            Value::Bool(b) => ValueView::Bool(*b),
            Value::I64(n) => ValueView::I64(*n),
            Value::F64(text) => ValueView::F64(text@),
            Value::String(text) => ValueView::String(text@),
            Value::Array(array) => ValueView::Array(array@),
        }
    }
}

impl View for KeyValue {
    type V = KeyValueView;

    open spec fn view(&self) -> KeyValueView {
        KeyValueView { key: self.key@, value: self.value@ }
    }
}

/// A copy of a list of strings.
fn copy_texts(strings: &Vec<String>) -> (copy: Vec<String>)
    ensures
        texts(copy@) == texts(strings@),
{
    let mut copy: Vec<String> = Vec::new();
    let mut i: usize = 0;
    while i < strings.len()
        invariant
            i <= strings.len(),
            copy@.len() == i,
            forall|j: int| 0 <= j < i ==> (#[trigger] copy@[j])@ == strings@[j]@,
        decreases strings.len() - i,
    {
        copy.push(strings[i].clone());
        i = i + 1;
    }
    assert(texts(copy@) =~= texts(strings@));
    copy
}

impl Clone for Array {
    fn clone(&self) -> (copy: Self)
        ensures
            copy@ == self@,
    {
        let copy = match self {
            Array::Bool(values) => Array::Bool(values.clone()),
            Array::I64(values) => Array::I64(values.clone()),
            Array::F64(values) => Array::F64(copy_texts(values)),
            Array::String(values) => Array::String(copy_texts(values)),
        };
        assert(self@ matches ArrayView::Bool(values) ==> copy@->Bool_0 =~= values);
        assert(self@ matches ArrayView::I64(values) ==> copy@->I64_0 =~= values);
        copy
    }
}

impl Clone for Value {
    fn clone(&self) -> (copy: Self)
        ensures
            copy@ == self@,
    {
        match self {
            Value::Bool(b) => Value::Bool(*b),
            Value::I64(n) => Value::I64(*n),
            Value::F64(text) => Value::F64(text.clone()),
            Value::String(text) => Value::String(text.clone()),
            Value::Array(array) => Value::Array(array.clone()),
        }
    }
}

/// What a list of attributes holds.
pub open spec fn attributes_view(attributes: Seq<KeyValue>) -> Seq<KeyValueView> {
    attributes.map_values(|kv: KeyValue| kv@)
}

/// An attribute whose value is a text.
pub open spec fn text_attribute(key: Seq<char>, text: Seq<char>) -> KeyValueView {
    KeyValueView { key, value: ValueView::String(text) }
}

/// The text of a boolean.
pub open spec fn bool_text(b: bool) -> Seq<char> {
    if b {
        "true"@
    } else {
        "false"@
    }
}

/// The text of an integer.
pub open spec fn int_text(n: i64) -> Seq<char> {
    if n < 0 {
        "-"@ + text::decimal_chars((-n) as nat)
    } else {
        text::decimal_chars(n as nat)
    }
}

/// The items with a comma between any two.
pub open spec fn comma_separated(items: Seq<Seq<char>>) -> Seq<char>
    decreases items.len(),
{
    if items.len() == 0 {
        Seq::empty()
    } else if items.len() == 1 {
        items[0]
    } else {
        comma_separated(items.drop_last()) + ","@ + items.last()
    }
}

/// The text of a value that holds no double: a string is its own text, a boolean and an integer are
/// written out, and an array is a list in brackets, its strings in quotation marks.
pub open spec fn simple_text(value: ValueView) -> Option<Seq<char>> {
    match value {
        ValueView::Bool(b) => Some(bool_text(b)),
        ValueView::I64(n) => Some(int_text(n)),
        ValueView::F64(_) => None,
        ValueView::String(text) => Some(text),
        ValueView::Array(ArrayView::Bool(values)) => Some(
            "["@ + comma_separated(values.map_values(|b: bool| bool_text(b))) + "]"@,
        ),
        ValueView::Array(ArrayView::I64(values)) => Some(
            "["@ + comma_separated(values.map_values(|n: i64| int_text(n))) + "]"@,
        ),
        ValueView::Array(ArrayView::F64(_)) => None,
        ValueView::Array(ArrayView::String(values)) => Some(
            "["@ + comma_separated(
                values.map_values(|text: Seq<char>| "\""@ + text + "\""@),
            ) + "]"@,
        ),
    }
}

/// What the `Display` of `opentelemetry::Value` writes.
pub uninterp spec fn otel_value_display(value: ValueView) -> Seq<char>;

/// What `opentelemetry::Value::as_str` returns.
pub uninterp spec fn otel_value_as_str(value: ValueView) -> Seq<char>;

/// The text that a value is displayed as.
pub open spec fn display_text(value: ValueView) -> Seq<char> {
    match simple_text(value) {
        Some(text) => text,
        None => otel_value_display(value),
    }
}

/// The text that a value is read as.
pub open spec fn str_text(value: ValueView) -> Seq<char> {
    match simple_text(value) {
        Some(text) => text,
        None => otel_value_as_str(value),
    }
}

/// Calls `to_string` on the `opentelemetry::Value` that `value` stands for.
///
/// Trusted: the result is a function of the value, and as stated where the value holds no double.
#[verifier::external_body]
fn display_otel_value(value: Value) -> (text: String)
    ensures
        text@ == otel_value_display(value@),
        simple_text(value@) matches Some(simple) ==> text@ == simple,
{
    let otel: OtelValue = match value {
        Value::Bool(b) => b.into(),
        Value::I64(n) => n.into(),
        Value::F64(d) => OtelValue::F64(d.parse().unwrap_or_default()),
        Value::String(s) => s.into(),
        Value::Array(array) => OtelValue::Array(match array {
            Array::Bool(a) => a.into(),
            Array::I64(a) => a.into(),
            Array::F64(a) => OtelArray::F64(
                a.iter().map(|d| d.parse().unwrap_or_default()).collect()),
            Array::String(a) => OtelArray::String(a.into_iter().map(|s| s.into()).collect()),
        }),
    };
    otel.to_string()
}

/// Calls `as_str` on the `opentelemetry::Value` that `value` stands for.
///
/// Trusted: the result is a function of the value, and as stated where the value holds no double.
#[verifier::external_body]
fn read_otel_value(value: Value) -> (text: String)
    ensures
        text@ == otel_value_as_str(value@),
        simple_text(value@) matches Some(simple) ==> text@ == simple,
{
    let otel: OtelValue = match value {
        Value::Bool(b) => b.into(),
        Value::I64(n) => n.into(),
        Value::F64(d) => OtelValue::F64(d.parse().unwrap_or_default()),
        Value::String(s) => s.into(),
        Value::Array(array) => OtelValue::Array(match array {
            Array::Bool(a) => a.into(),
            Array::I64(a) => a.into(),
            Array::F64(a) => OtelArray::F64(
                a.iter().map(|d| d.parse().unwrap_or_default()).collect()),
            Array::String(a) => OtelArray::String(a.into_iter().map(|s| s.into()).collect()),
        }),
    };
    otel.as_str().into_owned()
}

impl Value {
    /// The text that this value is displayed as.
    pub fn display(&self) -> (text: String)
        ensures
            text@ == display_text(self@),
    {
        display_otel_value(self.clone())
    }

    /// The text that this value is read as.
    pub fn as_str(&self) -> (text: String)
        ensures
            text@ == str_text(self@),
    {
        read_otel_value(self.clone())
    }
}

impl KeyValue {
    /// An attribute whose value is a text.
    pub fn text(key: &str, text: &str) -> (kv: KeyValue)
        ensures
            kv@ == text_attribute(key@, text@),
    {
        KeyValue { key: key.to_owned(), value: Value::String(text.to_owned()) }
    }
}

/// The value of the first attribute that has one of two keys.
pub open spec fn first_value(
    attributes: Seq<KeyValueView>,
    key: Seq<char>,
    other_key: Seq<char>,
) -> Option<ValueView>
    decreases attributes.len(),
{
    if attributes.len() == 0 {
        None
    } else if attributes[0].key == key || attributes[0].key == other_key {
        Some(attributes[0].value)
    } else {
        first_value(attributes.drop_first(), key, other_key)
    }
}

/// Finds the value of the first attribute that has one of two keys.
pub fn find_value<'a>(attributes: &'a Vec<KeyValue>, key: &str, other_key: &str) -> (found: Option<
    &'a Value,
>)
    ensures
        match found {
            Some(value) => first_value(attributes_view(attributes@), key@, other_key@) == Some(
                value@,
            ),
            None => first_value(attributes_view(attributes@), key@, other_key@) is None,
        },
{
    let ghost all = attributes_view(attributes@);
    let mut i: usize = 0;
    assert(all.skip(0) =~= all);
    while i < attributes.len()
        invariant
            i <= attributes.len(),
            all == attributes_view(attributes@),
            first_value(all, key@, other_key@) == first_value(all.skip(i as int), key@, other_key@),
        decreases attributes.len() - i,
    {
        let ghost rest = all.skip(i as int);
        assert(rest[0] == attributes@[i as int]@);
        assert(rest.drop_first() =~= all.skip(i + 1));
        if text::same_text(attributes[i].key.as_str(), key) || text::same_text(
            attributes[i].key.as_str(),
            other_key,
        ) {
            return Some(&attributes[i].value);
        }
        i = i + 1;
    }
    None
}

/// The value that is found is that of the first attribute with one of the keys, and none where no
/// attribute has one of them.
pub proof fn law_first_value_is_found(
    attributes: Seq<KeyValueView>,
    key: Seq<char>,
    other_key: Seq<char>,
    position: int,
)
    requires
        0 <= position <= attributes.len(),
        forall|i: int|
            0 <= i < position ==> (#[trigger] attributes[i]).key != key && attributes[i].key
                != other_key,
        position < attributes.len() ==> attributes[position].key == key || attributes[position].key
            == other_key,
    ensures
        position < attributes.len() ==> first_value(attributes, key, other_key) == Some(
            attributes[position].value,
        ),
        position == attributes.len() ==> first_value(attributes, key, other_key) is None,
    decreases attributes.len(),
{
    if position > 0 {
        let rest = attributes.drop_first();
        assert(attributes[0].key != key && attributes[0].key != other_key);
        assert forall|i: int| 0 <= i < position - 1 implies (#[trigger] rest[i]).key != key
            && rest[i].key != other_key by {
            assert(rest[i] == attributes[i + 1]);
        }
        law_first_value_is_found(rest, key, other_key, position - 1);
    }
}

/// A text is displayed and read as it is, a boolean as `true` or `false`, and both texts of a value
/// without doubles are the same.
pub proof fn law_texts_of_values(text: Seq<char>, value: ValueView)
    ensures
        display_text(ValueView::String(text)) == text,
        str_text(ValueView::String(text)) == text,
        display_text(ValueView::Bool(true)) == "true"@,
        display_text(ValueView::Bool(false)) == "false"@,
        str_text(ValueView::Bool(true)) == "true"@,
        str_text(ValueView::Bool(false)) == "false"@,
        !(value is F64) && !(value matches ValueView::Array(array) && array is F64)
            ==> display_text(value) == str_text(value),
        value is F64 || (value matches ValueView::Array(array) && array is F64) ==> display_text(
            value,
        ) == otel_value_display(value) && str_text(value) == otel_value_as_str(value),
{
}

/// The number that a decimal notation stands for, where a minus sign may come first.
pub open spec fn int_read(chars: Seq<char>) -> int {
    if chars.len() > 0 && chars[0] == '-' {
        -text::decimal_read(chars.drop_first())
    } else {
        text::decimal_read(chars)
    }
}

/// The text of an integer stands for that integer, so that different integers have different texts.
pub proof fn law_integers_are_read_back(n: i64)
    ensures
        int_read(display_text(ValueView::I64(n))) == n,
        int_read(str_text(ValueView::I64(n))) == n,
{
    reveal_strlit("-");
    if n < 0 {
        text::law_decimal_is_read_back((-n) as nat);
        assert(int_text(n).drop_first() =~= text::decimal_chars((-n) as nat));
    } else {
        text::law_decimal_is_read_back(n as nat);
    }
}

/// One more item in a list that has some comes last, after a comma.
proof fn lemma_one_more_item(items: Seq<Seq<char>>, item: Seq<char>)
    ensures
        comma_separated(Seq::empty()) == Seq::<char>::empty(),
        comma_separated(seq![item]) == item,
        items.len() > 0 ==> comma_separated(items.push(item)) == comma_separated(items) + ","@
            + item,
        ("["@ + item + "]"@).drop_last() == "["@ + item,
{
    reveal_strlit("]");
    assert(items.push(item).drop_last() =~= items);
    assert(("["@ + item + "]"@).drop_last() =~= "["@ + item);
}

/// An array of texts is written in brackets, its items in their order, each in quotation marks, with a
/// comma between any two.
pub proof fn law_text_arrays_are_lists(texts: Seq<Seq<char>>, text: Seq<char>)
    ensures
        ({
            let written = |items: Seq<Seq<char>>|
                display_text(ValueView::Array(ArrayView::String(items)));
            let quoted = "\""@ + text + "\""@;
            &&& written(Seq::empty()) == "["@ + "]"@
            &&& written(seq![text]) == "["@ + quoted + "]"@
            &&& texts.len() > 0 ==> written(texts.push(text)) == written(texts).drop_last() + ","@
                + quoted + "]"@
        }),
{
    let f = |text: Seq<char>| "\""@ + text + "\""@;
    let quoted = "\""@ + text + "\""@;
    lemma_one_more_item(texts.map_values(f), quoted);
    lemma_one_more_item(Seq::empty(), comma_separated(texts.map_values(f)));
    assert(Seq::<Seq<char>>::empty().map_values(f) =~= Seq::empty());
    assert(seq![text].map_values(f) =~= seq![quoted]);
    assert(texts.push(text).map_values(f) =~= texts.map_values(f).push(quoted));
    assert("["@ + Seq::<char>::empty() + "]"@ =~= "["@ + "]"@);
    let items = comma_separated(texts.map_values(f));
    assert("["@ + (items + ","@ + quoted) + "]"@ =~= "["@ + items + ","@ + quoted + "]"@);
}

/// An array of integers is written in brackets, its items in their order, with a comma between any two.
pub proof fn law_integer_arrays_are_lists(numbers: Seq<i64>, number: i64)
    ensures
        ({
            let written = |items: Seq<i64>| display_text(ValueView::Array(ArrayView::I64(items)));
            let one = display_text(ValueView::I64(number));
            &&& written(Seq::empty()) == "["@ + "]"@
            &&& written(seq![number]) == "["@ + one + "]"@
            &&& numbers.len() > 0 ==> written(numbers.push(number)) == written(numbers).drop_last()
                + ","@ + one + "]"@
        }),
{
    let f = |n: i64| int_text(n);
    let one = int_text(number);
    lemma_one_more_item(numbers.map_values(f), one);
    lemma_one_more_item(Seq::empty(), comma_separated(numbers.map_values(f)));
    assert(Seq::<i64>::empty().map_values(f) =~= Seq::empty());
    assert(seq![number].map_values(f) =~= seq![one]);
    assert(numbers.push(number).map_values(f) =~= numbers.map_values(f).push(one));
    assert("["@ + Seq::<char>::empty() + "]"@ =~= "["@ + "]"@);
    let items = comma_separated(numbers.map_values(f));
    assert("["@ + (items + ","@ + one) + "]"@ =~= "["@ + items + ","@ + one + "]"@);
}

/// An array of booleans is written in brackets, its items in their order, with a comma between any two.
pub proof fn law_boolean_arrays_are_lists(flags: Seq<bool>, flag: bool)
    ensures
        ({
            let written = |items: Seq<bool>| display_text(ValueView::Array(ArrayView::Bool(items)));
            let one = display_text(ValueView::Bool(flag));
            &&& written(Seq::empty()) == "["@ + "]"@
            &&& written(seq![flag]) == "["@ + one + "]"@
            &&& flags.len() > 0 ==> written(flags.push(flag)) == written(flags).drop_last() + ","@
                + one + "]"@
        }),
{
    let f = |b: bool| bool_text(b);
    let one = bool_text(flag);
    lemma_one_more_item(flags.map_values(f), one);
    lemma_one_more_item(Seq::empty(), comma_separated(flags.map_values(f)));
    assert(Seq::<bool>::empty().map_values(f) =~= Seq::empty());
    assert(seq![flag].map_values(f) =~= seq![one]);
    assert(flags.push(flag).map_values(f) =~= flags.map_values(f).push(one));
    assert("["@ + Seq::<char>::empty() + "]"@ =~= "["@ + "]"@);
    let items = comma_separated(flags.map_values(f));
    assert("["@ + (items + ","@ + one) + "]"@ =~= "["@ + items + ","@ + one + "]"@);
}

} // verus!
