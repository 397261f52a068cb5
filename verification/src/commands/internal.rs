//! Accepting the development plan: the phase documents, in natural order,
//! become the phases of the roadmap.
use vstd::prelude::*;
use vstd::relations::{sorted_by, total_ordering};
use crate::commands::trait_def::{CommandResult, DddCommand};
use crate::state::roadmap::{RoadmapState, RoadmapView, planned};
use crate::text::{
    chars_of, chars_le, decimal, decimal_string, ends_with_text, lemma_text_le_antisymmetric,
    lemma_text_le_total, lemma_text_le_transitive, starts_with_text, text_ends_with,
    text_le, text_starts_with,
};

verus! {

/// An ASCII decimal digit.
pub open spec fn is_digit(c: char) -> bool {
    '0' <= c && c <= '9'
}

/// `s` from its first digit on.
pub open spec fn skip_non_digits(s: Seq<char>) -> Seq<char>
    decreases s.len(),
{
    if s.len() == 0 || is_digit(s[0]) {
        s
    } else {
        skip_non_digits(s.drop_first())
    }
}

/// The digits with which `s` begins.
pub open spec fn take_digits(s: Seq<char>) -> Seq<char>
    decreases s.len(),
{
    if s.len() == 0 || !is_digit(s[0]) {
        Seq::empty()
    } else {
        seq![s[0]] + take_digits(s.drop_first())
    }
}

/// The number that a run of digits denotes.
pub open spec fn digits_value(d: Seq<char>) -> nat
    decreases d.len(),
{
    if d.len() == 0 {
        0
    } else {
        digits_value(d.drop_last()) * 10 + ((d.last() as int - '0' as int) as nat)
    }
}

/// The first run of digits in a file name, read as a `u32`; none when the
/// name has no digit or the run does not fit in a `u32`.
pub open spec fn sort_number(s: Seq<char>) -> Option<u32> {
    let run = take_digits(skip_non_digits(s));
    if run.len() > 0 && digits_value(run) <= u32::MAX {
        Some(digits_value(run) as u32)
    } else {
        None
    }
}

/// The order of the numbers of two names: no number first, then by value.
pub open spec fn number_le(a: Option<u32>, b: Option<u32>) -> bool {
    match (a, b) {
        (None, _) => true,
        (Some(_), None) => false,
        (Some(x), Some(y)) => x <= y,
    }
}

/// Natural order of file names: by their first number, then by the names
/// themselves.
pub open spec fn name_le(a: Seq<char>, b: Seq<char>) -> bool {
    if sort_number(a) == sort_number(b) {
        text_le(a, b)
    } else {
        number_le(sort_number(a), sort_number(b))
    }
}

/// The natural order as a relation.
pub open spec fn name_order() -> spec_fn(Seq<char>, Seq<char>) -> bool {
    |a: Seq<char>, b: Seq<char>| name_le(a, b)
}

/// A file of the phases directory that is a phase document: a Markdown file
/// whose name does not begin with `index`.
pub open spec fn is_phase_doc(name: Seq<char>) -> bool {
    ends_with_text(name, ".md"@) && !starts_with_text(name, "index"@)
}

/// The phase documents among the names, in their natural order.
pub open spec fn ordered_phase_docs(names: Seq<Seq<char>>) -> Seq<Seq<char>> {
    names.filter(|n: Seq<char>| is_phase_doc(n)).sort_by(name_order())
}

/// The (name, file) pair of the `i`-th phase document.
pub open spec fn phase_entry(doc: Seq<char>, i: int) -> (Seq<char>, Seq<char>) {
    ("Phase"@ + decimal((i + 1) as nat), "@project_docs/phases/"@ + doc)
}

/// The natural order is a total order.
pub proof fn lemma_name_order_total()
    ensures
        total_ordering(name_order()),
{
    let r = name_order();
    assert forall|x: Seq<char>| #[trigger] r(x, x) by {
        lemma_text_le_total(x, x);
    }
    assert forall|x: Seq<char>, y: Seq<char>| #[trigger] r(x, y) && #[trigger] r(y, x) implies x
        == y by {
        if sort_number(x) == sort_number(y) {
            lemma_text_le_antisymmetric(x, y);
        }
    }
    assert forall|x: Seq<char>, y: Seq<char>, z: Seq<char>|
        #[trigger] r(x, y) && #[trigger] r(y, z) implies r(x, z) by {
        if sort_number(x) == sort_number(y) && sort_number(y) == sort_number(z) {
            lemma_text_le_transitive(x, y, z);
        }
    }
    assert forall|x: Seq<char>, y: Seq<char>| #[trigger] r(x, y) || #[trigger] r(y, x) by {
        lemma_text_le_total(x, y);
    }
}

proof fn lemma_skip_non_digits_step(s: Seq<char>, i: int)
    requires
        0 <= i < s.len(),
        !is_digit(s[i]),
    ensures
        skip_non_digits(s.skip(i)) == skip_non_digits(s.skip(i + 1)),
{
    assert(s.skip(i).drop_first() =~= s.skip(i + 1));
}

proof fn lemma_take_digits_step(t: Seq<char>, k: int)
    requires
        0 <= k < t.len(),
        forall|j: int| 0 <= j <= k ==> is_digit(#[trigger] t[j]),
    ensures
        take_digits(t) == t.take(k + 1) + take_digits(t.skip(k + 1)),
    decreases k,
{
    if k == 0 {
        assert(t.drop_first() =~= t.skip(1));
        assert(t.take(1) =~= seq![t[0]]);
    } else {
        let u = t.drop_first();
        assert forall|j: int| 0 <= j <= k - 1 implies is_digit(#[trigger] u[j]) by {
            assert(u[j] == t[j + 1]);
        }
        lemma_take_digits_step(u, k - 1);
        assert(u.skip(k) =~= t.skip(k + 1));
        assert(t.take(k + 1) =~= seq![t[0]] + u.take(k));
    }
}

proof fn lemma_digits_value_push(d: Seq<char>, c: char)
    ensures
        digits_value(d.push(c)) == digits_value(d) * 10 + ((c as int - '0' as int) as nat),
{
    assert(d.push(c).drop_last() =~= d);
}

/// The sort key of a file name: its first number, if it has one that fits in
/// a `u32`, and the name itself.
pub fn extract_sort_key(filename: &str) -> (r: (Option<u32>, String))
    ensures
        r.0 == sort_number(filename@),
        r.1@ == filename@,
{
    let c = chars_of(filename);
    let n = c.len();
    let mut i: usize = 0;
    assert(filename@.skip(0) =~= filename@);
    while i < n && !('0' <= c[i] && c[i] <= '9')
        invariant
            c@ == filename@,
            n == c@.len(),
            i <= n,
            skip_non_digits(filename@.skip(i as int)) == skip_non_digits(filename@),
        decreases n - i,
    {
        proof {
            lemma_skip_non_digits_step(filename@, i as int);
        }
        i = i + 1;
    }
    let ghost t = filename@.skip(i as int);
    assert(skip_non_digits(t) == t);
    let mut j: usize = i;
    let mut value: u64 = 0;
    let mut overflow = false;
    while j < n && '0' <= c[j] && c[j] <= '9'
        invariant
            c@ == filename@,
            n == c@.len(),
            i <= j <= n,
            t == filename@.skip(i as int),
            forall|k: int| i <= k < j ==> is_digit(#[trigger] filename@[k]),
            !overflow ==> value == digits_value(filename@.subrange(i as int, j as int)) && value
                <= u32::MAX,
            overflow ==> digits_value(filename@.subrange(i as int, j as int)) > u32::MAX,
        decreases n - j,
    {
        let d = (c[j] as u32 - '0' as u32) as u64;
        proof {
            lemma_digits_value_push(filename@.subrange(i as int, j as int), c@[j as int]);
            assert(filename@.subrange(i as int, j + 1) =~= filename@.subrange(i as int, j as int).push(
                c@[j as int],
            ));
        }
        if !overflow {
            value = value * 10 + d;
            if value > 0xffff_ffff {
                overflow = true;
            }
        }
        j = j + 1;
    }
    proof {
        let run = filename@.subrange(i as int, j as int);
        if j > i {
            assert forall|k: int| 0 <= k <= j - i - 1 implies is_digit(#[trigger] t[k]) by {
                assert(t[k] == filename@[i + k]);
            }
            lemma_take_digits_step(t, j - i - 1);
            assert(t.take(j - i) =~= run);
            assert(t.skip(j - i) =~= filename@.skip(j as int));
        } else {
            assert(run =~= Seq::<char>::empty());
            assert(t.skip(0) =~= t);
        }
        let rest = filename@.skip(j as int);
        if rest.len() > 0 {
            assert(rest[0] == filename@[j as int]);
        }
        assert(take_digits(rest) =~= Seq::<char>::empty());
        assert(take_digits(t) =~= run);
    }
    let number = if j > i && !overflow {
        Some(value as u32)
    } else {
        None
    };
    (number, filename.to_owned())
}

/// Whether `a` comes no later than `b` in the natural order of file names.
pub fn name_le_exec(a: &str, b: &str) -> (r: bool)
    ensures
        r == name_le(a@, b@),
{
    let (na, _) = extract_sort_key(a);
    let (nb, _) = extract_sort_key(b);
    let same = match (na, nb) {
        (None, None) => true,
        (Some(x), Some(y)) => x == y,
        _ => false,
    };
    if same {
        chars_le(&chars_of(a), &chars_of(b))
    } else {
        match (na, nb) {
            (None, _) => true,
            (Some(_), None) => false,
            (Some(x), Some(y)) => x <= y,
        }
    }
}

/// Whether a file of the phases directory is a phase document.
pub fn is_phase_doc_exec(name: &str) -> (r: bool)
    ensures
        r == is_phase_doc(name@),
        r == (name@.len() >= 3 && name@.skip(name@.len() - 3) =~= ".md"@ && !(name@.len() >= 5
            && name@.take(5) =~= "index"@)),
{
    proof {
        reveal_strlit(".md");
        reveal_strlit("index");
    }
    text_ends_with(name, ".md") && !text_starts_with(name, "index")
}

/// The phase documents among the given file names, in natural order.
pub fn sort_phase_docs(names: &Vec<String>) -> (r: Vec<String>)
    ensures
        r@.map_values(|s: String| s@) == ordered_phase_docs(names@.map_values(|s: String| s@)),
{
    let ghost nv = names@.map_values(|s: String| s@);
    let ghost pred = |n: Seq<char>| is_phase_doc(n);
    let mut out: Vec<String> = Vec::new();
    let mut i: usize = 0;
    proof {
        lemma_name_order_total();
        assert(nv.take(0).filter(pred) =~= Seq::<Seq<char>>::empty());
        assert(out@.map_values(|s: String| s@) =~= Seq::<Seq<char>>::empty());
    }
    while i < names.len()
        invariant
            nv == names@.map_values(|s: String| s@),
            pred == (|n: Seq<char>| is_phase_doc(n)),
            i <= names@.len(),
            total_ordering(name_order()),
            sorted_by(out@.map_values(|s: String| s@), name_order()),
            out@.map_values(|s: String| s@).to_multiset() == nv.take(i as int).filter(
                pred,
            ).to_multiset(),
        decreases names@.len() - i,
    {
        let ghost before = out@.map_values(|s: String| s@);
        proof {
            assert(nv.take(i + 1) =~= nv.take(i as int).push(nv[i as int]));
            nv.take(i as int).lemma_filter_push(nv[i as int], pred);
        }
        assert(names@[i as int]@ == nv[i as int]);
        if is_phase_doc_exec(names[i].as_str()) {
            let x = names[i].clone();
            let mut p: usize = 0;
            while p < out.len() && name_le_exec(out[p].as_str(), x.as_str())
                invariant
                    p <= out@.len(),
                    before == out@.map_values(|s: String| s@),
                    forall|k: int| 0 <= k < p ==> name_le(#[trigger] before[k], x@),
                decreases out@.len() - p,
            {
                p = p + 1;
            }
            out.insert(p, x);
            proof {
                let after = out@.map_values(|s: String| s@);
                assert(after =~= before.insert(p as int, x@));
                vstd::seq_lib::to_multiset_insert(before, p as int, x@);
                assert(x@ == nv[i as int]);
                vstd::seq_lib::to_multiset_build(nv.take(i as int).filter(pred), x@);
                let r = name_order();
                assert forall|a: int, b: int| 0 <= a < b < after.len() implies #[trigger] r(
                    after[a],
                    after[b],
                ) by {
                    if b < p {
                        assert(r(before[a], before[b]));
                    } else if b == p {
                        assert(name_le(before[a], x@));
                    } else if a < p {
                        assert(name_le(before[a], x@));
                        assert(!name_le(before[p as int], x@));
                        assert(r(before[p as int], x@) || r(x@, before[p as int]));
                        if p < b - 1 {
                            assert(r(before[p as int], before[b - 1]));
                        }
                        assert(r(x@, before[b - 1]));
                    } else if a == p {
                        assert(!name_le(before[p as int], x@));
                        assert(r(before[p as int], x@) || r(x@, before[p as int]));
                        if p < b - 1 {
                            assert(r(before[p as int], before[b - 1]));
                        }
                    } else {
                        assert(r(before[a - 1], before[b - 1]));
                    }
                }
            }
        }
        i = i + 1;
    }
    proof {
        assert(nv.take(names@.len() as int) =~= nv);
        let result = out@.map_values(|s: String| s@);
        let filtered = nv.filter(pred);
        filtered.lemma_sort_by_ensures(name_order());
        vstd::seq_lib::lemma_sorted_unique(result, filtered.sort_by(name_order()), name_order());
        assert(pred == (|n: Seq<char>| is_phase_doc(n)));
    }
    out
}

/// The phases of an accepted plan: one (name, file) pair per phase document,
/// in natural order, named `Phase1`, `Phase2`, ... and pointing into the
/// phases directory.
pub fn accept_files(names: &Vec<String>) -> (r: Vec<(String, String)>)
    ensures
        r@.len() == ordered_phase_docs(names@.map_values(|s: String| s@)).len(),
        forall|i: int|
            0 <= i < r@.len() ==> ((#[trigger] r@[i]).0@, r@[i].1@) == phase_entry(
                ordered_phase_docs(names@.map_values(|s: String| s@))[i],
                i,
            ),
{
    let docs = sort_phase_docs(names);
    let ghost dv = docs@.map_values(|s: String| s@);
    let mut r: Vec<(String, String)> = Vec::new();
    let mut i: usize = 0;
    while i < docs.len()
        invariant
            dv == docs@.map_values(|s: String| s@),
            i <= docs@.len(),
            r@.len() == i,
            forall|k: int|
                0 <= k < i ==> ((#[trigger] r@[k]).0@, r@[k].1@) == phase_entry(dv[k], k),
        decreases docs@.len() - i,
    {
        assert(i < usize::MAX);
        let name = "Phase".to_owned().concat(decimal_string((i + 1) as u64).as_str());
        let file = "@project_docs/phases/".to_owned().concat(docs[i].as_str());
        r.push((name, file));
        i = i + 1;
    }
    r
}

/// The message when the phases directory holds no phase document.
pub fn plan_missing_message() -> (r: &'static str)
    ensures
        r@ == "显示:开发计划未生成, 请重新执行 /ddd-prepare, **important** 状态机由ddd-tool维护, 不允许修改 roadmap.json"@,
{
    "显示:开发计划未生成, 请重新执行 /ddd-prepare, **important** 状态机由ddd-tool维护, 不允许修改 roadmap.json"
}

/// The message that stops acceptance when the plan has no phase; none when
/// it has one.
pub fn missing_plan(files: &Vec<(String, String)>) -> (r: Option<&'static str>)
    ensures
        (files@.len() == 0) == (r is Some),
        r matches Some(m) ==> m@ == "显示:开发计划未生成, 请重新执行 /ddd-prepare, **important** 状态机由ddd-tool维护, 不允许修改 roadmap.json"@,
{
    if files.len() == 0 {
        Some(plan_missing_message())
    } else {
        None
    }
}

/// The report of an accepted plan of `count` phases.
pub fn accepted_message(count: usize) -> (r: String)
    ensures
        r@ == "状态机已生成，共 "@ + decimal(count as nat) + " 个阶段"@,
{
    "状态机已生成，共 ".to_owned().concat(decimal_string(count as u64).as_str()).concat(" 个阶段")
}

/// The report of an accepted plan of `count` phases, as the command line
/// prints it.
pub fn accepted_cli_message(count: usize) -> (r: String)
    ensures
        r@ == "状态机已生成，共 "@ + decimal(count as nat)
            + " 个阶段, 提示: 请执行 /ddd-exec 开始启动实际开发, 然后停止!"@,
{
    "状态机已生成，共 ".to_owned().concat(decimal_string(count as u64).as_str()).concat(
        " 个阶段, 提示: 请执行 /ddd-exec 开始启动实际开发, 然后停止!",
    )
}

/// Accepts a plan into the roadmap: with no phase, reports that the plan is
/// missing and leaves the roadmap alone; otherwise the roadmap takes the
/// phases and the result reports their number.
pub fn accept_plan(state: &mut RoadmapState, files: Vec<(String, String)>) -> (r: CommandResult)
    ensures
        r.success,
        r.prompt is None,
        files@.len() == 0 ==> final(state)@ == old(state)@ && r.message@
            == "显示:开发计划未生成, 请重新执行 /ddd-prepare, **important** 状态机由ddd-tool维护, 不允许修改 roadmap.json"@,
        files@.len() > 0 ==> final(state)@ == planned(old(state)@, files@) && r.message@
            == "状态机已生成，共 "@ + decimal(files@.len()) + " 个阶段"@,
{
    if files.len() == 0 {
        return CommandResult::ok(plan_missing_message());
    }
    let n = files.len();
    state.init_phrases_from_files(files);
    CommandResult::ok(accepted_message(n).as_str())
}

/// Accepts the development plan: scans the phase documents and initializes
/// the phases.
pub struct AcceptCommand;

impl DddCommand for AcceptCommand {
    open spec fn spec_name(&self) -> Seq<char> {
        "ddd-accept"@
    }

    open spec fn spec_cli_visible(&self) -> bool {
        true
    }

    fn is_cli_visible(&self) -> (r: bool) {
        true
    }

    fn name(&self) -> (r: &'static str)
        ensures
            r@ == "ddd-accept"@,
    {
        "ddd-accept"
    }

    fn description(&self) -> (r: &'static str)
        ensures
            r@ == "Accept development plan, init phases"@,
    {
        "Accept development plan, init phases"
    }

    fn prompt_template(&self) -> (r: Option<&'static str>)
        ensures
            r is None,
    {
        None
    }

    fn command_prompt(&self, bin: &str, name: &str) -> (r: Option<String>)
        ensures
            r matches Some(p) && p@ == "加载Skill "@ + name@
                + ", 执行技能生成开发任务批次, 完成后提示用户可以执行 /ddd-exec 开始进行开发"@,
    {
        Some(
            "加载Skill ".to_owned().concat(name).concat(
                ", 执行技能生成开发任务批次, 完成后提示用户可以执行 /ddd-exec 开始进行开发",
            ),
        )
    }

    fn skill_prompt(&self, bin: &str, name: &str) -> (r: Option<String>)
        ensures
            r matches Some(p) && p@ == "---\nname: \""@ + name@
                + "\"\ndescription: \"接受阶段计划并初始化开发状态\"\n---\n扫描 phases/ 目录并初始化开发阶段\n调用Bash !`"@
                + bin@ + " accept 2>&1`\n"@,
    {
        Some(
            "---\nname: \"".to_owned().concat(name).concat(
                "\"\ndescription: \"接受阶段计划并初始化开发状态\"\n---\n扫描 phases/ 目录并初始化开发阶段\n调用Bash !`",
            ).concat(bin).concat(" accept 2>&1`\n"),
        )
    }
}

} // verus!
