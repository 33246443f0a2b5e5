//! Reading the text of an assistant message, either from its legacy
//! `content` field or from the typed items of its `output` list.
use vstd::prelude::*;
use crate::json::{array_at, str_at, JsonValue};
use crate::text::same_text;

verus! {

/// Which output items a text extraction keeps.
#[derive(Debug, Clone, Copy, PartialEq, Eq, Structural)]
pub enum OutputSelect {
    /// Items whose `type` is missing, empty or `"message"`.
    Regular,
    /// Items whose `type` is `"reasoning"`.
    Reasoning,
}

/// The `type` of an output item, or the empty text when it has none.
pub open spec fn item_type(item: JsonValue) -> Seq<char> {
    match str_at(item, "type"@) {
        Some(t) => t,
        None => Seq::empty(),
    }
}

/// Whether an output item of type `t` is kept by `select`.
pub open spec fn type_selected(t: Seq<char>, select: OutputSelect) -> bool {
    match select {
        OutputSelect::Regular => t.len() == 0 || t == "message"@,
        OutputSelect::Reasoning => t == "reasoning"@,
    }
}

/// The text of one content entry: its `text` string, else its `content`
/// string, else nothing.
pub open spec fn entry_text(entry: JsonValue) -> Seq<char> {
    match str_at(entry, "text"@) {
        Some(t) => t,
        None => match str_at(entry, "content"@) {
            Some(t) => t,
            None => Seq::empty(),
        },
    }
}

/// The texts of content entries, concatenated in order.
pub open spec fn entries_text(entries: Seq<JsonValue>) -> Seq<char>
    decreases entries.len(),
{
    if entries.len() == 0 {
        Seq::empty()
    } else {
        entries_text(entries.drop_last()) + entry_text(entries.last())
    }
}

/// The text that one output item contributes under `select`.
pub open spec fn item_text(item: JsonValue, select: OutputSelect) -> Seq<char> {
    if type_selected(item_type(item), select) {
        match array_at(item, "content"@) {
            Some(entries) => entries_text(entries),
            None => Seq::empty(),
        }
    } else {
        Seq::empty()
    }
}

/// The texts of output items, concatenated in order.
pub open spec fn items_text(items: Seq<JsonValue>, select: OutputSelect) -> Seq<char>
    decreases items.len(),
{
    if items.len() == 0 {
        Seq::empty()
    } else {
        items_text(items.drop_last(), select) + item_text(items.last(), select)
    }
}

/// The concatenated text of the selected items of a message's `output` list.
pub open spec fn output_text(message: JsonValue, select: OutputSelect) -> Seq<char> {
    match array_at(message, "output"@) {
        Some(items) => items_text(items, select),
        None => Seq::empty(),
    }
}

/// The regular text of a message: its `content` string when that is not
/// empty, else the text of its regular output items.
pub open spec fn message_content(message: JsonValue) -> Seq<char> {
    match str_at(message, "content"@) {
        Some(c) => if c.len() > 0 { c } else { output_text(message, OutputSelect::Regular) },
        None => output_text(message, OutputSelect::Regular),
    }
}

/// The reasoning text of a message, when there is any.
pub open spec fn message_reasoning(message: JsonValue) -> Option<Seq<char>> {
    let r = output_text(message, OutputSelect::Reasoning);
    if r.len() > 0 {
        Some(r)
    } else {
        None
    }
}

fn is_selected(item_type: &str, select: OutputSelect) -> (r: bool)
    ensures
        r == type_selected(item_type@, select),
{
    match select {
        OutputSelect::Regular => item_type.is_empty() || same_text(item_type, "message"),
        OutputSelect::Reasoning => same_text(item_type, "reasoning"),
    }
}

fn append_entries(text: &mut String, entries: &Vec<JsonValue>)
    ensures
        final(text)@ == old(text)@ + entries_text(entries@),
{
    let ghost start = text@;
    let mut j: usize = 0;
    assert(entries@.take(0) =~= Seq::<JsonValue>::empty());
    while j < entries.len()
        invariant
            j <= entries.len(),
            text@ == start + entries_text(entries@.take(j as int)),
        decreases entries.len() - j,
    {
        let entry = &entries[j];
        let piece = match entry.str_at("text") {
            Some(t) => Some(t),
            None => entry.str_at("content"),
        };
        if let Some(t) = piece {
            text.append(t);
        }
        assert(entries@.take(j + 1).drop_last() =~= entries@.take(j as int));
        assert(text@ =~= start + entries_text(entries@.take(j + 1)));
        j = j + 1;
    }
    assert(entries@.take(entries.len() as int) =~= entries@);
}

/// Concatenates, in order, the entry texts of the output items that
/// `select` keeps.
pub fn extract_output_text(message: &JsonValue, select: OutputSelect) -> (text: String)
    ensures
        text@ == output_text(*message, select),
{
    let mut text = String::new();
    let output = match message.array_at("output") {
        Some(items) => items,
        None => {
            return text;
        },
    };
    let mut i: usize = 0;
    assert(output@.take(0) =~= Seq::<JsonValue>::empty());
    while i < output.len()
        invariant
            i <= output.len(),
            array_at(*message, "output"@) == Some(output@),
            text@ == items_text(output@.take(i as int), select),
        decreases output.len() - i,
    {
        let item = &output[i];
        proof {
            reveal_strlit("");
        }
        let kind = match item.str_at("type") {
            Some(t) => t,
            None => "",
        };
        if is_selected(kind, select) {
            if let Some(entries) = item.array_at("content") {
                append_entries(&mut text, entries);
            }
        }
        assert(output@.take(i + 1).drop_last() =~= output@.take(i as int));
        assert(output@.take(i + 1).last() == output@[i as int]);
        assert(kind@ == item_type(output@[i as int]));
        assert(text@ =~= items_text(output@.take(i + 1), select));
        i = i + 1;
    }
    assert(output@.take(output.len() as int) =~= output@);
    text
}

/// The regular text of a message: the legacy `content` string when it is
/// not empty, otherwise the text of the untyped and `"message"` output items.
pub fn extract_content(message: &JsonValue) -> (content: String)
    ensures
        content@ == message_content(*message),
{
    proof {
        reveal_strlit("");
    }
    let content = match message.str_at("content") {
        Some(c) => c,
        None => "",
    };
    if !content.is_empty() {
        return content.to_owned();
    }
    extract_output_text(message, OutputSelect::Regular)
}

/// The text of the `"reasoning"` output items, or `None` when it is empty.
pub fn extract_reasoning(message: &JsonValue) -> (reasoning: Option<String>)
    ensures
        reasoning is Some == message_reasoning(*message) is Some,
        reasoning is Some ==> reasoning->0@ == message_reasoning(*message)->0,
{
    let reasoning = extract_output_text(message, OutputSelect::Reasoning);
    if reasoning.as_str().is_empty() {
        None
    } else {
        Some(reasoning)
    }
}

/// A message whose `content` is a non-empty string reads as exactly that
/// string, whatever its output items hold; only a message without one reads
/// as the text of its regular output items.
pub proof fn lemma_legacy_content_wins(message: JsonValue)
    ensures
        str_at(message, "content"@) is Some && str_at(message, "content"@)->0.len() > 0
            ==> message_content(message) == str_at(message, "content"@)->0,
        !(str_at(message, "content"@) is Some && str_at(message, "content"@)->0.len() > 0)
            ==> message_content(message) == output_text(message, OutputSelect::Regular),
{
}

} // verus!
