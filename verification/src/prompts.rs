//! Prompt templates and their placeholder substitution.
use vstd::prelude::*;
use crate::text::{contains_text, replace_text, replace_all, text_contains, occurs_at};

verus! {

/// The values that may fill a prompt template's placeholders.
#[derive(Debug, Clone)]
pub struct PromptParams {
    pub context: Option<String>,
    pub file: Option<String>,
    pub phase_name: Option<String>,
    pub plan_file: Option<String>,
    pub name: Option<String>,
}

impl Default for PromptParams {
    fn default() -> (r: Self)
        ensures
            r.context is None,
            r.file is None,
            r.phase_name is None,
            r.plan_file is None,
            r.name is None,
    {
        PromptParams { context: None, file: None, phase_name: None, plan_file: None, name: None }
    }
}

impl PromptParams {
    /// Parameters with no value set.
    pub fn new() -> (r: Self)
        ensures
            r.context is None,
            r.file is None,
            r.phase_name is None,
            r.plan_file is None,
            r.name is None,
    {
        PromptParams { context: None, file: None, phase_name: None, plan_file: None, name: None }
    }

    /// Sets the value of `{context}`.
    pub fn with_context(self, context: String) -> (r: Self)
        ensures
            r.context == Some(context),
            r.file == self.file,
            r.phase_name == self.phase_name,
            r.plan_file == self.plan_file,
            r.name == self.name,
    {
        PromptParams { context: Some(context), ..self }
    }

    /// Sets the value of `{file}`.
    pub fn with_file(self, file: String) -> (r: Self)
        ensures
            r.context == self.context,
            r.file == Some(file),
            r.phase_name == self.phase_name,
            r.plan_file == self.plan_file,
            r.name == self.name,
    {
        PromptParams { file: Some(file), ..self }
    }

    /// Sets the value of `{Phase Name}`.
    pub fn with_phase_name(self, name: String) -> (r: Self)
        ensures
            r.context == self.context,
            r.file == self.file,
            r.phase_name == Some(name),
            r.plan_file == self.plan_file,
            r.name == self.name,
    {
        PromptParams { phase_name: Some(name), ..self }
    }

    /// Sets the value of `{plan_file}`.
    pub fn with_plan_file(self, plan_file: String) -> (r: Self)
        ensures
            r.context == self.context,
            r.file == self.file,
            r.phase_name == self.phase_name,
            r.plan_file == Some(plan_file),
            r.name == self.name,
    {
        PromptParams { plan_file: Some(plan_file), ..self }
    }

    /// Sets the value of `{name}`.
    pub fn with_name(self, name: String) -> (r: Self)
        ensures
            r.context == self.context,
            r.file == self.file,
            r.phase_name == self.phase_name,
            r.plan_file == self.plan_file,
            r.name == Some(name),
    {
        PromptParams { name: Some(name), ..self }
    }
}

/// The placeholders, in the order in which they are checked and filled.
pub open spec fn placeholder(k: int) -> Seq<char> {
    if k == 0 {
        "{context}"@
    } else if k == 1 {
        "{file}"@
    } else if k == 2 {
        "{Phase Name}"@
    } else if k == 3 {
        "{plan_file}"@
    } else {
        "{name}"@
    }
}

/// The value that the parameters give the `k`-th placeholder.
pub open spec fn param_value(p: PromptParams, k: int) -> Option<String> {
    if k == 0 {
        p.context
    } else if k == 1 {
        p.file
    } else if k == 2 {
        p.phase_name
    } else if k == 3 {
        p.plan_file
    } else {
        p.name
    }
}

/// The `k`-th placeholder occurs in the template while the parameters lack its value.
pub open spec fn is_missing(t: Seq<char>, p: PromptParams, k: int) -> bool {
    contains_text(t, placeholder(k)) && param_value(p, k) is None
}

/// The first placeholder, in checking order, that the template needs and the
/// parameters lack.
pub open spec fn first_missing(t: Seq<char>, p: PromptParams) -> Option<int> {
    if is_missing(t, p, 0) {
        Some(0)
    } else if is_missing(t, p, 1) {
        Some(1)
    } else if is_missing(t, p, 2) {
        Some(2)
    } else if is_missing(t, p, 3) {
        Some(3)
    } else if is_missing(t, p, 4) {
        Some(4)
    } else {
        None
    }
}

/// Replaces a placeholder by its value, if it has one.
pub open spec fn fill_one(t: Seq<char>, pat: Seq<char>, v: Option<String>) -> Seq<char> {
    match v {
        Some(x) => replace_text(t, pat, x@),
        None => t,
    }
}

/// The template with the placeholders filled one after another, in checking
/// order; the value filled in for one placeholder is searched by the next.
pub open spec fn fill_all(t: Seq<char>, p: PromptParams) -> Seq<char> {
    let t0 = fill_one(t, placeholder(0), p.context);
    let t1 = fill_one(t0, placeholder(1), p.file);
    let t2 = fill_one(t1, placeholder(2), p.phase_name);
    let t3 = fill_one(t2, placeholder(3), p.plan_file);
    fill_one(t3, placeholder(4), p.name)
}

/// The error text for a missing placeholder.
pub open spec fn missing_message(k: int) -> Seq<char> {
    "Missing required parameter: "@ + placeholder(k)
}

/// What `render` gives for a template and parameters.
pub open spec fn render_spec(t: Seq<char>, p: PromptParams) -> Result<Seq<char>, Seq<char>> {
    match first_missing(t, p) {
        Some(k) => Err(missing_message(k)),
        None => Ok(fill_all(t, p)),
    }
}

/// The text of a rendering: the filled template, or the error message.
pub open spec fn render_text(res: Result<Seq<char>, Seq<char>>) -> Seq<char> {
    match res {
        Ok(s) => s,
        Err(e) => e,
    }
}

fn fill_step(t: String, pat: &str, v: &Option<String>) -> (r: String)
    requires
        pat@.len() > 0,
    ensures
        r@ == fill_one(t@, pat@, *v),
{
    match v {
        Some(x) => replace_all(t.as_str(), pat, x.as_str()),
        None => t,
    }
}

fn missing_error(pat: &str) -> (r: String)
    ensures
        r@ == "Missing required parameter: "@ + pat@,
{
    let mut m = "Missing required parameter: ".to_owned();
    m.append(pat);
    m
}

/// Fills the placeholders of a prompt template.
///
/// Fails, naming the placeholder, when the template holds a placeholder whose
/// value the parameters lack (the first such in checking order); otherwise
/// replaces every occurrence of each placeholder by its value.
pub fn render(template: &str, params: &PromptParams) -> (r: Result<String, String>)
    ensures
        match render_spec(template@, *params) {
            Ok(s) => r matches Ok(x) && x@ == s,
            Err(e) => r matches Err(x) && x@ == e,
        },
{
    proof {
        reveal_strlit("{context}");
        reveal_strlit("{file}");
        reveal_strlit("{Phase Name}");
        reveal_strlit("{plan_file}");
        reveal_strlit("{name}");
    }
    if text_contains(template, "{context}") && params.context.is_none() {
        return Err(missing_error("{context}"));
    }
    if text_contains(template, "{file}") && params.file.is_none() {
        return Err(missing_error("{file}"));
    }
    if text_contains(template, "{Phase Name}") && params.phase_name.is_none() {
        return Err(missing_error("{Phase Name}"));
    }
    if text_contains(template, "{plan_file}") && params.plan_file.is_none() {
        return Err(missing_error("{plan_file}"));
    }
    if text_contains(template, "{name}") && params.name.is_none() {
        return Err(missing_error("{name}"));
    }
    let result = template.to_owned();
    let result = fill_step(result, "{context}", &params.context);
    let result = fill_step(result, "{file}", &params.file);
    let result = fill_step(result, "{Phase Name}", &params.phase_name);
    let result = fill_step(result, "{plan_file}", &params.plan_file);
    let result = fill_step(result, "{name}", &params.name);
    Ok(result)
}

/// Replacing a pattern that does not occur changes nothing.
pub proof fn lemma_replace_absent(s: Seq<char>, pat: Seq<char>, val: Seq<char>)
    requires
        !contains_text(s, pat),
    ensures
        replace_text(s, pat, val) == s,
    decreases s.len(),
{
    if pat.len() == 0 || s.len() == 0 {
    } else {
        assert(!occurs_at(s, pat, 0));
        let t = s.skip(1);
        assert forall|i: int| !occurs_at(t, pat, i) by {
            if occurs_at(t, pat, i) {
                assert(s.subrange(i + 1, i + 1 + pat.len()) =~= t.subrange(i, i + pat.len()));
                assert(occurs_at(s, pat, i + 1));
            }
        }
        lemma_replace_absent(t, pat, val);
        assert(s =~= seq![s[0]] + t);
    }
}

/// A template that holds none of the placeholders renders to itself, whatever
/// the parameters.
pub proof fn law_render_without_placeholders(t: Seq<char>, p: PromptParams)
    requires
        forall|k: int| 0 <= k < 5 ==> !contains_text(t, #[trigger] placeholder(k)),
    ensures
        render_spec(t, p) == Ok::<Seq<char>, Seq<char>>(t),
{
    assert(!contains_text(t, placeholder(0)));
    assert(!contains_text(t, placeholder(1)));
    assert(!contains_text(t, placeholder(2)));
    assert(!contains_text(t, placeholder(3)));
    assert(!contains_text(t, placeholder(4)));
    match p.context {
        Some(x) => lemma_replace_absent(t, placeholder(0), x@),
        None => {},
    }
    match p.file {
        Some(x) => lemma_replace_absent(t, placeholder(1), x@),
        None => {},
    }
    match p.phase_name {
        Some(x) => lemma_replace_absent(t, placeholder(2), x@),
        None => {},
    }
    match p.plan_file {
        Some(x) => lemma_replace_absent(t, placeholder(3), x@),
        None => {},
    }
    match p.name {
        Some(x) => lemma_replace_absent(t, placeholder(4), x@),
        None => {},
    }
}

/// With every parameter set, rendering never fails.
pub proof fn law_render_total_when_all_given(t: Seq<char>, p: PromptParams)
    requires
        p.context is Some,
        p.file is Some,
        p.phase_name is Some,
        p.plan_file is Some,
        p.name is Some,
    ensures
        render_spec(t, p) is Ok,
{
}

} // verus!
