//! The texts the program prints about models and endpoints: the model
//! listing, the list of endpoints an API key needs, and the model check of
//! the diagnostics.
use vstd::prelude::*;
use crate::client::texts;
use crate::commands::{default_model_status, DefaultModelStatus};
use crate::config::Config;
use crate::text::{decimal, decimal_string};

verus! {

/// Each item on a line of its own, indented by two spaces.
pub open spec fn indented_lines(items: Seq<Seq<char>>) -> Seq<char>
    decreases items.len(),
{
    if items.len() == 0 {
        Seq::empty()
    } else {
        indented_lines(items.drop_last()) + "  "@ + items.last() + "\n"@
    }
}

/// The items separated by `sep`.
pub open spec fn joined(items: Seq<Seq<char>>, sep: Seq<char>) -> Seq<char>
    decreases items.len(),
{
    if items.len() == 0 {
        Seq::empty()
    } else if items.len() == 1 {
        items[0]
    } else {
        joined(items.drop_last(), sep) + sep + items.last()
    }
}

/// The texts of a list of string slices.
pub open spec fn str_texts(v: Seq<&str>) -> Seq<Seq<char>> {
    v.map_values(|s: &str| s@)
}

/// Appends each item on a line of its own, indented by two spaces.
fn push_indented_lines(t: &mut String, items: &Vec<String>)
    ensures
        final(t)@ == old(t)@ + indented_lines(texts(items@)),
{
    let mut i: usize = 0;
    let ghost start = t@;
    proof {
        reveal_strlit("  ");
        reveal_strlit("\n");
    }
    assert(texts(items@.take(0)) =~= Seq::<Seq<char>>::empty());
    assert(start =~= start + indented_lines(texts(items@.take(0))));
    while i < items.len()
        invariant
            i <= items.len(),
            t@ == start + indented_lines(texts(items@.take(i as int))),
        decreases items.len() - i,
    {
        t.append("  ");
        t.append(items[i].as_str());
        t.append("\n");
        let ghost done = texts(items@.take(i as int));
        assert(texts(items@.take(i + 1)) =~= done.push(items@[i as int]@));
        assert(texts(items@.take(i + 1)).drop_last() =~= done);
        assert(t@ =~= start + indented_lines(texts(items@.take(i + 1))));
        i = i + 1;
    }
    assert(items@.take(items.len() as int) =~= items@);
}

/// Appends each endpoint on a line of its own, indented by two spaces.
fn push_indented_endpoints(t: &mut String, items: &Vec<&str>)
    ensures
        final(t)@ == old(t)@ + indented_lines(str_texts(items@)),
{
    let mut i: usize = 0;
    let ghost start = t@;
    proof {
        reveal_strlit("  ");
        reveal_strlit("\n");
    }
    assert(str_texts(items@.take(0)) =~= Seq::<Seq<char>>::empty());
    assert(start =~= start + indented_lines(str_texts(items@.take(0))));
    while i < items.len()
        invariant
            i <= items.len(),
            t@ == start + indented_lines(str_texts(items@.take(i as int))),
        decreases items.len() - i,
    {
        t.append("  ");
        t.append(items[i]);
        t.append("\n");
        let ghost done = str_texts(items@.take(i as int));
        assert(str_texts(items@.take(i + 1)) =~= done.push(items@[i as int]@));
        assert(str_texts(items@.take(i + 1)).drop_last() =~= done);
        assert(t@ =~= start + indented_lines(str_texts(items@.take(i + 1))));
        i = i + 1;
    }
    assert(items@.take(items.len() as int) =~= items@);
}

/// The endpoints an API key needs, as `Config::required_endpoints` lists
/// them.
pub open spec fn required_endpoint_texts() -> Seq<Seq<char>> {
    seq![
        "/api/chat/completions"@,
        "/api/v1/chats"@,
        "/api/v1/chats/new"@,
        "/api/v1/chats/{id}"@,
    ]
}

/// The model listing: a note when there are none, else a heading and one
/// indented line per model.
pub open spec fn models_listing(models: Seq<Seq<char>>) -> Seq<char> {
    if models.len() == 0 {
        "No models available.\n"@
    } else {
        "Available models:\n"@ + indented_lines(models)
    }
}

/// Renders the model listing.
pub fn models_listing_text(models: &Vec<String>) -> (t: String)
    ensures
        t@ == models_listing(texts(models@)),
{
    if models.len() == 0 {
        return "No models available.\n".to_owned();
    }
    let mut t = "Available models:\n".to_owned();
    push_indented_lines(&mut t, models);
    t
}

/// The list of endpoints printed on request: what to do with them, the
/// endpoints, and how they are matched.
pub open spec fn required_endpoints_report() -> Seq<char> {
    "Required API endpoints for Open WebUI API key endpoint restrictions:\n\nAdd these paths to Admin Settings → API Keys → Allowed Endpoints:\n  (or set auth.api_key.allowed_endpoints in the database/config)\n\n"@
        + indented_lines(required_endpoint_texts())
        + "\nNote: Paths are prefix-matched. '/api/v1/chats' covers sub-paths like '/api/v1/chats/<id>'.\n"@
}

/// Renders the list of endpoints printed on request.
pub fn required_endpoints_report_text() -> (t: String)
    ensures
        t@ == required_endpoints_report(),
{
    let mut t = "Required API endpoints for Open WebUI API key endpoint restrictions:\n\nAdd these paths to Admin Settings → API Keys → Allowed Endpoints:\n  (or set auth.api_key.allowed_endpoints in the database/config)\n\n".to_owned();
    let endpoints = Config::required_endpoints();
    assert(str_texts(endpoints@) =~= required_endpoint_texts());
    push_indented_endpoints(&mut t, &endpoints);
    t.append(
        "\nNote: Paths are prefix-matched. '/api/v1/chats' covers sub-paths like '/api/v1/chats/<id>'.\n",
    );
    t
}

/// The hint printed when a diagnostic check fails: the endpoints an API
/// key needs when endpoint restrictions are on.
pub open spec fn endpoints_hint() -> Seq<char> {
    "Required endpoints (if endpoint restrictions are enabled):\n"@ + indented_lines(
        required_endpoint_texts(),
    )
}

/// Renders the hint printed when a diagnostic check fails.
pub fn endpoints_hint_text() -> (t: String)
    ensures
        t@ == endpoints_hint(),
{
    let mut t = "Required endpoints (if endpoint restrictions are enabled):\n".to_owned();
    let endpoints = Config::required_endpoints();
    assert(str_texts(endpoints@) =~= required_endpoint_texts());
    push_indented_endpoints(&mut t, &endpoints);
    t
}

/// What the diagnostics say of the listed models: a warning when there are
/// none; else how many there are and, when a default model is configured,
/// whether it is among them (listing them all when it is not).
pub open spec fn models_check(models: Seq<Seq<char>>, default_model: Seq<char>) -> Seq<char> {
    if models.len() == 0 {
        "⚠ API key valid but no models available\n"@
    } else {
        "✓ API key valid ("@ + decimal(models.len()) + " models available)\n"@ + if default_model.len()
            == 0 {
            Seq::empty()
        } else if models.contains(default_model) {
            "✓ Default model '"@ + default_model + "' is available\n"@
        } else {
            "⚠ Default model '"@ + default_model + "' not found in available models\n  Available: "@
                + joined(models, ", "@) + "\n"@
        }
    }
}

/// Joins the texts of `items` with `sep` between them.
fn join_texts(items: &Vec<String>, sep: &str) -> (t: String)
    ensures
        t@ == joined(texts(items@), sep@),
{
    let mut t = String::new();
    let mut i: usize = 0;
    assert(texts(items@.take(0)) =~= Seq::<Seq<char>>::empty());
    while i < items.len()
        invariant
            i <= items.len(),
            t@ == joined(texts(items@.take(i as int)), sep@),
        decreases items.len() - i,
    {
        if i > 0 {
            t.append(sep);
        }
        t.append(items[i].as_str());
        let ghost done = texts(items@.take(i as int));
        assert(texts(items@.take(i + 1)) =~= done.push(items@[i as int]@));
        assert(texts(items@.take(i + 1)).drop_last() =~= done);
        if i == 0 {
            assert(t@ =~= joined(texts(items@.take(i + 1)), sep@));
        } else {
            assert(t@ =~= joined(texts(items@.take(i + 1)), sep@));
        }
        i = i + 1;
    }
    assert(items@.take(items.len() as int) =~= items@);
    t
}

/// Renders what the diagnostics say of the listed models.
pub fn models_check_text(models: &Vec<String>, default_model: &str) -> (t: String)
    ensures
        t@ == models_check(texts(models@), default_model@),
{
    if models.len() == 0 {
        return "⚠ API key valid but no models available\n".to_owned();
    }
    let mut t = "✓ API key valid (".to_owned();
    let count = decimal_string(models.len() as u64);
    t.append(count.as_str());
    t.append(" models available)\n");
    let status = default_model_status(models, default_model);
    if status == DefaultModelStatus::NotConfigured {
        return t;
    }
    let listed = status == DefaultModelStatus::Listed;
    assert(listed ==> texts(models@).contains(default_model@)) by {
        if listed {
            let i = choose|i: int| 0 <= i < models@.len() && #[trigger] models@[i]@ == default_model@;
            assert(texts(models@)[i] == default_model@);
        }
    }
    assert(texts(models@).contains(default_model@) ==> listed) by {
        if texts(models@).contains(default_model@) {
            let i = choose|i: int| 0 <= i < texts(models@).len() && texts(models@)[i] == default_model@;
            assert(models@[i]@ == default_model@);
        }
    }
    if listed {
        t.append("✓ Default model '");
        t.append(default_model);
        t.append("' is available\n");
    } else {
        t.append("⚠ Default model '");
        t.append(default_model);
        t.append("' not found in available models\n  Available: ");
        let all = join_texts(models, ", ");
        t.append(all.as_str());
        t.append("\n");
    }
    t
}

/// What the diagnostics say of the connectivity check, and whether they go
/// on to the models: the server's version when it answered and accepted
/// the key; else the error and the endpoints hint, and the diagnostics stop
/// with that error.
pub open spec fn connectivity_check(outcome: Result<String, String>) -> (Seq<char>, bool) {
    match outcome {
        Ok(version) => ("✓ Server reachable (Open WebUI v"@ + version@ + ")\n"@, true),
        Err(error) => ("✗ Server connection issue: "@ + error@ + "\n\n"@ + endpoints_hint(), false),
    }
}

/// Renders what the diagnostics say of the connectivity check, with
/// whether they go on. `outcome` holds the version, or the error's text.
pub fn connectivity_check_text(outcome: &Result<String, String>) -> (r: (String, bool))
    ensures
        r.0@ == connectivity_check(*outcome).0,
        r.1 == connectivity_check(*outcome).1,
{
    match outcome {
        Ok(version) => {
            let mut t = "✓ Server reachable (Open WebUI v".to_owned();
            t.append(version.as_str());
            t.append(")\n");
            (t, true)
        },
        Err(error) => {
            let mut t = "✗ Server connection issue: ".to_owned();
            t.append(error.as_str());
            t.append("\n\n");
            let hint = endpoints_hint_text();
            t.append(hint.as_str());
            (t, false)
        },
    }
}

/// What the diagnostics say of listing the models: the model check when
/// they were listed; else the error and the endpoints hint, after which the
/// diagnostics still complete.
pub open spec fn model_listing_check(
    outcome: Result<Vec<String>, String>,
    default_model: Seq<char>,
) -> Seq<char> {
    match outcome {
        Ok(models) => models_check(texts(models@), default_model),
        Err(error) => "✗ Cannot list models: "@ + error@ + "\n\n"@ + endpoints_hint(),
    }
}

/// Renders what the diagnostics say of listing the models. `outcome` holds
/// the models, or the error's text.
pub fn model_listing_check_text(outcome: &Result<Vec<String>, String>, default_model: &str) -> (t:
    String)
    ensures
        t@ == model_listing_check(*outcome, default_model@),
{
    match outcome {
        Ok(models) => models_check_text(models, default_model),
        Err(error) => {
            let mut t = "✗ Cannot list models: ".to_owned();
            t.append(error.as_str());
            t.append("\n\n");
            let hint = endpoints_hint_text();
            t.append(hint.as_str());
            t
        },
    }
}

/// The line that closes the diagnostics when they complete.
pub open spec fn diagnostics_footer() -> Seq<char> {
    "\nAll checks complete.\n"@
}

/// Renders the line that closes the diagnostics.
pub fn diagnostics_footer_text() -> (t: String)
    ensures
        t@ == diagnostics_footer(),
{
    "\nAll checks complete.\n".to_owned()
}

/// The line that counts the listed models.
pub open spec fn models_count_line(count: nat) -> Seq<char> {
    "✓ API key valid ("@ + decimal(count) + " models available)\n"@
}

/// The model check says the default model is available exactly when one
/// listed model's name is that name, character for character; a model whose
/// name only begins with it does not count. Without models it warns, and
/// without a default model it only counts them.
pub proof fn lemma_default_model_available_exactly_when_listed(
    models: Seq<Seq<char>>,
    default_model: Seq<char>,
)
    ensures
        models.len() == 0 ==> models_check(models, default_model)
            == "⚠ API key valid but no models available\n"@,
        models.len() > 0 && default_model.len() == 0 ==> models_check(models, default_model)
            == models_count_line(models.len()),
        models.len() > 0 && default_model.len() > 0 && (exists|i: int|
            0 <= i < models.len() && models[i] == default_model) ==> models_check(
            models,
            default_model,
        ) == models_count_line(models.len()) + "✓ Default model '"@ + default_model
            + "' is available\n"@,
        models.len() > 0 && default_model.len() > 0 && (forall|i: int|
            0 <= i < models.len() ==> models[i] != default_model) ==> models_check(
            models,
            default_model,
        ) == models_count_line(models.len()) + "⚠ Default model '"@ + default_model
            + "' not found in available models\n  Available: "@ + joined(models, ", "@) + "\n"@,
{
    if models.len() > 0 && default_model.len() > 0 {
        if exists|i: int| 0 <= i < models.len() && models[i] == default_model {
            let i = choose|i: int| 0 <= i < models.len() && models[i] == default_model;
            assert(models.contains(default_model));
        }
    }
}

} // verus!
