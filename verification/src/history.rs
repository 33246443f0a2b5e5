//! Chat histories: the entries read back from the server or from the local
//! session file, and their paginated Markdown rendering.
use vstd::prelude::*;
use crate::client::ClientError;
use crate::config::{opt_string, or_default};
use crate::json::{bool_at, json_get, str_at, u64_at, JsonMember, JsonValue};
use crate::messages::{extract_content, extract_reasoning, message_content, message_reasoning};
use crate::session::LocalMessage;
use crate::text::{decimal, decimal_string, same_text};

verus! {

/// One message of a chat history.
#[derive(Clone, Debug)]
pub struct HistoryEntry {
    pub role: String,
    pub content: String,
    pub reasoning: Option<String>,
    pub done: bool,
    pub timestamp: u64,
}

/// A chat's title and all of its messages.
#[derive(Clone, Debug)]
pub struct HistoryResult {
    pub chat_id: String,
    pub title: String,
    pub messages: Vec<HistoryEntry>,
}

/// Why a history could not be rendered.
#[derive(Clone, Debug, PartialEq, Eq)]
pub enum HistoryError {
    /// The page number was zero.
    PageZero,
    /// The page size was zero.
    PageSizeZero,
    /// The requested output format is neither `markdown` nor `json`.
    UnsupportedFormat(String),
}

/// The number of pages that `count` messages fill, `page_size` to a page.
pub open spec fn total_pages(count: nat, page_size: nat) -> nat
    recommends
        page_size > 0,
{
    count / page_size + if count % page_size != 0 { 1nat } else { 0nat }
}

/// One past the last message of page `page`, counting pages from the end.
pub open spec fn page_end(count: nat, page: nat, page_size: nat) -> int {
    count - (page - 1) * page_size
}

/// The first message of page `page`, counting pages from the end.
pub open spec fn page_start(count: nat, page: nat, page_size: nat) -> int {
    let end = page_end(count, page, page_size);
    if end >= page_size {
        end - page_size
    } else {
        0
    }
}

/// The heading under which a message of `role` is shown.
pub open spec fn role_heading(role: Seq<char>) -> Seq<char> {
    if role == "user"@ {
        "User"@
    } else if role == "assistant"@ {
        "Assistant"@
    } else {
        role
    }
}

/// The Markdown block of one message.
pub open spec fn entry_block(e: HistoryEntry) -> Seq<char> {
    let body = "\n## "@ + role_heading(e.role@) + "\n"@ + e.content@ + "\n"@;
    match e.reasoning {
        Some(r) => body + "\n<details>\n<summary>Reasoning</summary>\n\n"@ + r@
            + "\n\n</details>\n"@,
        None => body,
    }
}

/// The Markdown blocks of messages, separated by horizontal rules.
pub open spec fn entries_markdown(entries: Seq<HistoryEntry>) -> Seq<char>
    decreases entries.len(),
{
    if entries.len() == 0 {
        Seq::empty()
    } else if entries.len() == 1 {
        entry_block(entries[0])
    } else {
        entries_markdown(entries.drop_last()) + "\n---\n"@ + entry_block(entries.last())
    }
}

/// The heading of a rendered history page.
pub open spec fn page_header(
    title: Seq<char>,
    chat_id: Seq<char>,
    page: nat,
    total: nat,
    count: nat,
) -> Seq<char> {
    "# "@ + title + "\n\n> Session: "@ + chat_id + " | Page "@ + decimal(page) + "/"@ + decimal(
        total,
    ) + " | "@ + decimal(count) + " messages total\n\n---\n"@
}

/// Page `page` of a history in Markdown, pages counted from the end.
pub open spec fn history_markdown(
    title: Seq<char>,
    chat_id: Seq<char>,
    messages: Seq<HistoryEntry>,
    page: nat,
    page_size: nat,
) -> Result<Seq<char>, HistoryError> {
    if page == 0 {
        Err(HistoryError::PageZero)
    } else if page_size == 0 {
        Err(HistoryError::PageSizeZero)
    } else {
        let count = messages.len();
        let total = total_pages(count, page_size);
        let header = page_header(title, chat_id, page, total, count);
        if page > total {
            Ok(header + "\nPage "@ + decimal(page) + " exceeds total pages ("@ + decimal(total)
                + ").\n"@)
        } else {
            Ok(header + entries_markdown(
                messages.subrange(
                    page_start(count, page, page_size),
                    page_end(count, page, page_size),
                ),
            ))
        }
    }
}

proof fn lemma_page_bounds(count: nat, page: nat, page_size: nat)
    requires
        page_size > 0,
        1 <= page <= total_pages(count, page_size),
    ensures
        0 <= (page - 1) * page_size < count,
        0 <= page_start(count, page, page_size) < page_end(count, page, page_size) <= count,
{
    let q = count / page_size;
    let r = count % page_size;
    assert(count == q * page_size + r) by (nonlinear_arith)
        requires
            page_size > 0,
            q == count / page_size,
            r == count % page_size,
    ;
    assert(0 <= (page - 1) * page_size) by (nonlinear_arith)
        requires
            page >= 1,
            page_size > 0,
    ;
    if r != 0 {
        assert((page - 1) * page_size <= q * page_size) by (nonlinear_arith)
            requires
                page - 1 <= q,
                page_size > 0,
        ;
    } else {
        assert((page - 1) * page_size <= (q - 1) * page_size) by (nonlinear_arith)
            requires
                page - 1 <= q - 1,
                page_size > 0,
        ;
        assert((q - 1) * page_size == q * page_size - page_size) by (nonlinear_arith);
    }
}

/// Pages tile the history from its end: page 1 ends at the last message,
/// each page begins where the page after it (one further back) ends, the
/// last page begins at the first message, every page holds at least one
/// and at most `page_size` messages, and every page but the last (the one
/// furthest back) holds exactly `page_size`.
pub proof fn lemma_pages_tile_history(count: nat, page_size: nat, page: nat)
    requires
        page_size > 0,
        1 <= page <= total_pages(count, page_size),
    ensures
        page == 1 ==> page_end(count, page, page_size) == count,
        page < total_pages(count, page_size) ==> page_start(count, page, page_size) == page_end(
            count,
            page + 1,
            page_size,
        ),
        page == total_pages(count, page_size) ==> page_start(count, page, page_size) == 0,
        0 < page_end(count, page, page_size) - page_start(count, page, page_size) <= page_size,
        page < total_pages(count, page_size) ==> page_end(count, page, page_size) - page_start(
            count,
            page,
            page_size,
        ) == page_size,
        0 <= page_start(count, page, page_size),
        page_end(count, page, page_size) <= count,
{
    lemma_page_bounds(count, page, page_size);
    let q = count / page_size;
    let r = count % page_size;
    assert(count == q * page_size + r) by (nonlinear_arith)
        requires
            page_size > 0,
            q == count / page_size,
            r == count % page_size,
    ;
    assert((page - 1) * page_size + page_size == page * page_size) by (nonlinear_arith);
    if page == 1 {
        assert((page - 1) * page_size == 0) by (nonlinear_arith)
            requires
                page == 1,
        ;
    }
    if page < total_pages(count, page_size) {
        lemma_page_bounds(count, page + 1, page_size);
    }
    if page == total_pages(count, page_size) {
        if r != 0 {
            assert(page * page_size == q * page_size + page_size) by (nonlinear_arith)
                requires
                    page == q + 1,
            ;
        } else {
            assert(page * page_size == q * page_size) by (nonlinear_arith)
                requires
                    page == q,
            ;
        }
    }
}

/// No page exists when there are no messages, and some page exists when
/// there is at least one.
pub proof fn lemma_total_pages_zero_iff_empty(count: nat, page_size: nat)
    requires
        page_size > 0,
    ensures
        total_pages(count, page_size) == 0 <==> count == 0,
        total_pages(count, page_size) * page_size >= count,
{
    let q = count / page_size;
    let r = count % page_size;
    assert(count == q * page_size + r) by (nonlinear_arith)
        requires
            page_size > 0,
            q == count / page_size,
            r == count % page_size,
    ;
    if r != 0 {
        assert((q + 1) * page_size == q * page_size + page_size) by (nonlinear_arith);
    }
    if q > 0 {
        assert(q * page_size >= page_size) by (nonlinear_arith)
            requires
                q > 0,
                page_size > 0,
        ;
    }
}

fn role_heading_text(role: &str) -> (h: &str)
    ensures
        h@ == role_heading(role@),
{
    if same_text(role, "user") {
        "User"
    } else if same_text(role, "assistant") {
        "Assistant"
    } else {
        role
    }
}

fn append_entry(md: &mut String, e: &HistoryEntry)
    ensures
        final(md)@ == old(md)@ + entry_block(*e),
{
    let ghost start = md@;
    md.append("\n## ");
    md.append(role_heading_text(e.role.as_str()));
    md.append("\n");
    md.append(e.content.as_str());
    md.append("\n");
    match &e.reasoning {
        Some(r) => {
            md.append("\n<details>\n<summary>Reasoning</summary>\n\n");
            md.append(r.as_str());
            md.append("\n\n</details>\n");
        },
        None => {},
    }
    assert(md@ =~= start + entry_block(*e));
}

/// Renders page `page` (1 is the last page) of `page_size` messages as
/// Markdown, under a heading that names the chat and the page count.
pub fn render_history_markdown(
    title: &str,
    chat_id: &str,
    messages: &[HistoryEntry],
    page: usize,
    page_size: usize,
) -> (r: Result<String, HistoryError>)
    ensures
        match history_markdown(title@, chat_id@, messages@, page as nat, page_size as nat) {
            Ok(text) => r is Ok && r->Ok_0@ == text,
            Err(e) => r == Err::<String, HistoryError>(e),
        },
{
    if page == 0 {
        return Err(HistoryError::PageZero);
    }
    if page_size == 0 {
        return Err(HistoryError::PageSizeZero);
    }
    let message_count = messages.len();
    let full_pages = message_count / page_size;
    let partial = message_count % page_size != 0;
    if partial {
        assert(full_pages < message_count) by (nonlinear_arith)
            requires
                full_pages == message_count / page_size,
                message_count % page_size != 0,
                page_size > 0,
        ;
    }
    let total_pages: usize = full_pages + if partial {
        1
    } else {
        0
    };
    let mut markdown = String::new();
    markdown.append("# ");
    markdown.append(title);
    markdown.append("\n\n> Session: ");
    markdown.append(chat_id);
    markdown.append(" | Page ");
    let page_text = decimal_string(page as u64);
    markdown.append(page_text.as_str());
    markdown.append("/");
    let total_text = decimal_string(total_pages as u64);
    markdown.append(total_text.as_str());
    markdown.append(" | ");
    let count_text = decimal_string(message_count as u64);
    markdown.append(count_text.as_str());
    markdown.append(" messages total\n\n---\n");
    let ghost header = markdown@;
    assert(header =~= page_header(
        title@,
        chat_id@,
        page as nat,
        total_pages as nat,
        message_count as nat,
    ));
    if page > total_pages {
        markdown.append("\nPage ");
        markdown.append(page_text.as_str());
        markdown.append(" exceeds total pages (");
        markdown.append(total_text.as_str());
        markdown.append(").\n");
        assert(markdown@ =~= header + "\nPage "@ + decimal(page as nat) + " exceeds total pages ("@
            + decimal(total_pages as nat) + ").\n"@);
        return Ok(markdown);
    }
    proof {
        lemma_page_bounds(message_count as nat, page as nat, page_size as nat);
    }
    let end = message_count - (page - 1) * page_size;
    let start = if end >= page_size {
        end - page_size
    } else {
        0
    };
    let ghost shown = messages@.subrange(start as int, end as int);
    let mut i: usize = start;
    assert(shown.take(0) =~= Seq::<HistoryEntry>::empty());
    while i < end
        invariant
            start <= i <= end <= messages@.len(),
            start < end,
            shown == messages@.subrange(start as int, end as int),
            markdown@ == header + entries_markdown(shown.take(i - start)),
        decreases end - i,
    {
        if i > start {
            markdown.append("\n---\n");
        }
        append_entry(&mut markdown, &messages[i]);
        proof {
            let k = (i - start) as int;
            assert(shown.take(k + 1).drop_last() =~= shown.take(k));
            assert(shown.take(k + 1).last() == messages@[i as int]);
            if k == 0 {
                assert(shown.take(1) =~= seq![messages@[i as int]]);
            }
        }
        assert(markdown@ =~= header + entries_markdown(shown.take(i + 1 - start)));
        i = i + 1;
    }
    assert(shown.take(end - start) =~= shown);
    Ok(markdown)
}

/// The members of `chat.history.messages` in a chat's data, when that is an
/// object.
pub open spec fn chat_history(body: JsonValue) -> Option<Seq<JsonMember>> {
    match json_get(body, "chat"@) {
        Some(chat) => match json_get(chat, "history"@) {
            Some(history) => match json_get(history, "messages"@) {
                Some(JsonValue::Object(members)) => Some(members@),
                _ => None,
            },
            None => None,
        },
        None => None,
    }
}

/// Whether a history entry holds what a message of the chat data says: its
/// role (`"unknown"` when absent), its regular and reasoning text, whether it
/// is done (no when absent) and its timestamp (0 when absent).
pub open spec fn entry_from_json(e: HistoryEntry, m: JsonValue) -> bool {
    &&& e.role@ == or_default(str_at(m, "role"@), "unknown"@)
    &&& e.content@ == message_content(m)
    &&& opt_string(e.reasoning) == message_reasoning(m)
    &&& e.done == or_default(bool_at(m, "done"@), false)
    &&& e.timestamp == or_default(u64_at(m, "timestamp"@), 0)
}

/// Whether `r` is the history that a chat's data holds: its title (empty
/// when absent) and one entry per member of `chat.history.messages`, in the
/// members' order; or the error that the data has no such object.
pub open spec fn history_of_chat(
    r: Result<HistoryResult, ClientError>,
    chat_id: Seq<char>,
    body: JsonValue,
) -> bool {
    match chat_history(body) {
        None => r is Err && r->Err_0 is MessagesMissing,
        Some(members) => {
            &&& r is Ok
            &&& r->Ok_0.chat_id@ == chat_id
            &&& r->Ok_0.title@ == or_default(str_at(body, "title"@), Seq::empty())
            &&& r->Ok_0.messages@.len() == members.len()
            &&& forall|i: int|
                0 <= i < members.len() ==> entry_from_json(
                    #[trigger] r->Ok_0.messages@[i],
                    members[i].value,
                )
        },
    }
}

/// The messages object of a chat's data, when present.
pub fn chat_history_members(body: &JsonValue) -> (r: Option<&Vec<JsonMember>>)
    ensures
        r is Some == chat_history(*body) is Some,
        r is Some ==> r->0@ == chat_history(*body)->0,
{
    match body.get("chat") {
        Some(chat) => match chat.get("history") {
            Some(history) => match history.get("messages") {
                Some(JsonValue::Object(members)) => Some(members),
                _ => None,
            },
            None => None,
        },
        None => None,
    }
}

/// The history entry of one message of a chat's data.
pub fn history_entry(m: &JsonValue) -> (e: HistoryEntry)
    ensures
        entry_from_json(e, *m),
{
    proof {
        reveal_strlit("unknown");
    }
    let role = match m.str_at("role") {
        Some(r) => r.to_owned(),
        None => "unknown".to_owned(),
    };
    HistoryEntry {
        role,
        content: extract_content(m),
        reasoning: extract_reasoning(m),
        done: match m.bool_at("done") {
            Some(d) => d,
            None => false,
        },
        timestamp: match m.u64_at("timestamp") {
            Some(t) => t,
            None => 0,
        },
    }
}

/// The history in a chat's data: its title (empty when absent) and one
/// entry per member of `chat.history.messages`, in the members' order.
pub fn history_from_chat(chat_id: &str, body: &JsonValue) -> (r: Result<HistoryResult, ClientError>)
    ensures
        history_of_chat(r, chat_id@, *body),
{
    proof {
        reveal_strlit("");
    }
    let title = match body.str_at("title") {
        Some(t) => t.to_owned(),
        None => String::new(),
    };
    let members = match chat_history_members(body) {
        Some(ms) => ms,
        None => {
            return Err(ClientError::MessagesMissing);
        },
    };
    let mut entries: Vec<HistoryEntry> = Vec::new();
    let mut i: usize = 0;
    while i < members.len()
        invariant
            i <= members.len(),
            entries@.len() == i,
            forall|j: int| 0 <= j < i ==> entry_from_json(#[trigger] entries@[j], members@[j].value),
        decreases members.len() - i,
    {
        entries.push(history_entry(&members[i].value));
        i = i + 1;
    }
    Ok(HistoryResult { chat_id: chat_id.to_owned(), title, messages: entries })
}

/// Whether a history entry holds a locally recorded message, marked done.
pub open spec fn entry_from_local(e: HistoryEntry, m: LocalMessage) -> bool {
    &&& e.role == m.role
    &&& e.content == m.content
    &&& e.reasoning == m.reasoning
    &&& e.done
    &&& e.timestamp == m.timestamp
}

/// The history of a chat as recorded locally: titled `Chat <chat_id>`, with
/// every recorded message in order, each marked done.
pub fn local_history_result(chat_id: &str, messages: Vec<LocalMessage>) -> (r: HistoryResult)
    ensures
        r.chat_id@ == chat_id@,
        r.title@ == "Chat "@ + chat_id@,
        r.messages@.len() == messages@.len(),
        forall|i: int|
            0 <= i < messages@.len() ==> entry_from_local(#[trigger] r.messages@[i], messages@[i]),
{
    let mut entries: Vec<HistoryEntry> = Vec::new();
    let mut i: usize = 0;
    while i < messages.len()
        invariant
            i <= messages.len(),
            entries@.len() == i,
            forall|j: int| 0 <= j < i ==> entry_from_local(#[trigger] entries@[j], messages@[j]),
        decreases messages.len() - i,
    {
        let m = &messages[i];
        let reasoning = match &m.reasoning {
            Some(r) => Some(r.clone()),
            None => None,
        };
        entries.push(
            HistoryEntry {
                role: m.role.clone(),
                content: m.content.clone(),
                reasoning,
                done: true,
                timestamp: m.timestamp,
            },
        );
        i = i + 1;
    }
    let mut title = "Chat ".to_owned();
    title.append(chat_id);
    HistoryResult { chat_id: chat_id.to_owned(), title, messages: entries }
}

/// How a history is shown.
#[derive(Clone, Debug)]
pub enum HistoryOutput {
    /// As pretty-printed JSON of the whole history.
    Json,
    /// As this Markdown page.
    Markdown(String),
}

/// Decides how a history is shown: in the requested format (Markdown when
/// none is given), a Markdown page being page `page` (1 when not given) of
/// `page_size` messages (10 when not given).
pub fn history_output(
    result: &HistoryResult,
    page: Option<usize>,
    page_size: Option<usize>,
    format: Option<&str>,
) -> (r: Result<HistoryOutput, HistoryError>)
    ensures
        ({
            let f = match format {
                Some(f) => f@,
                None => "markdown"@,
            };
            if f == "json"@ {
                r matches Ok(HistoryOutput::Json)
            } else if f == "markdown"@ {
                match history_markdown(
                    result.title@,
                    result.chat_id@,
                    result.messages@,
                    match page {
                        Some(p) => p as nat,
                        None => 1,
                    },
                    match page_size {
                        Some(s) => s as nat,
                        None => 10,
                    },
                ) {
                    Ok(text) => (r matches Ok(HistoryOutput::Markdown(m)) && m@ == text),
                    Err(e) => r == Err::<HistoryOutput, HistoryError>(e),
                }
            } else {
                r matches Err(HistoryError::UnsupportedFormat(u)) && u@ == f
            }
        }),
{
    proof {
        reveal_strlit("markdown");
        reveal_strlit("json");
    }
    let f = match format {
        Some(f) => f,
        None => "markdown",
    };
    if same_text(f, "json") {
        Ok(HistoryOutput::Json)
    } else if same_text(f, "markdown") {
        let page = match page {
            Some(p) => p,
            None => 1,
        };
        let page_size = match page_size {
            Some(s) => s,
            None => 10,
        };
        match render_history_markdown(
            result.title.as_str(),
            result.chat_id.as_str(),
            result.messages.as_slice(),
            page,
            page_size,
        ) {
            Ok(text) => Ok(HistoryOutput::Markdown(text)),
            Err(e) => Err(e),
        }
    } else {
        Err(HistoryError::UnsupportedFormat(f.to_owned()))
    }
}

} // verus!
