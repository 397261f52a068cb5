//! Properties that hold across the commands.
use vstd::prelude::*;
use crate::commands::confirm_phase::{confirm_gate, confirm_message, ALL_DONE_MESSAGE};
use crate::commands::report::{phase_rows, report_text, table_row};
use crate::commands::archive::{has_unfinished, unfinished_lines, unfinished_line};
use crate::commands::internal::{
    phase_entry, ordered_phase_docs, is_phase_doc, name_le, name_order, sort_number,
    lemma_name_order_total,
};
use crate::commands::registry::{CommandRegistry, index_of_name, distinct_keys};
use crate::commands::trait_def::DddCommand;
use crate::state::laws::{in_order, law_advance_keeps_order};
use crate::state::roadmap::{
    RoadmapView, RoadmapError, PhraseView, first_named, advanced, advance_post, all_finished,
    is_first_named, lemma_first_named_is,
};
use crate::text::{decimal, digit_char};

verus! {

/// Confirming an in-order roadmap that no gate stops never fails: the current
/// phase is found, the roadmap stays in order, and confirming the last phase
/// reports that every phase is complete.
pub proof fn law_confirm_in_order(s: RoadmapView)
    requires
        in_order(s),
        confirm_gate(s) is None,
    ensures
        first_named(s.phrases, s.current_phase->0) is Some,
        in_order(advanced(s, first_named(s.phrases, s.current_phase->0)->0)),
        first_named(s.phrases, s.current_phase->0)->0 + 1 == s.phrases.len() ==> confirm_message(
            s,
            first_named(s.phrases, s.current_phase->0)->0,
        ) == ALL_DONE_MESSAGE@,
{
    let i = first_named(s.phrases, s.current_phase->0)->0;
    let t = advanced(s, i);
    let ps = t.phrases;
    let r: Result<Option<PhraseView>, RoadmapError> = Ok(
        if i + 1 < s.phrases.len() {
            Some(ps[i + 1])
        } else {
            None
        },
    );
    assert(advance_post(s, t, r));
    law_advance_keeps_order(s, t, r);
    if i + 1 == s.phrases.len() {
        assert(all_finished(t.phrases));
    }
}

/// Registering a command (as `register` does, under the name the command
/// reports) and then looking that name up gives the command; every other
/// name gives what it gave before; and the registry holds one more entry
/// exactly when the name was new.
pub proof fn law_register_then_get<C: DddCommand + ?Sized>(
    old: CommandRegistry<C>,
    new: CommandRegistry<C>,
    cmd: Box<C>,
)
    requires
        old.wf(),
        new.wf(),
        old.registered(new, cmd.spec_name(), cmd),
    ensures
        index_of_name(new.names_view(), cmd.spec_name()) matches Some(i) && new.commands_view()[i]
            == cmd,
        forall|m: Seq<char>|
            m != cmd.spec_name() ==> #[trigger] index_of_name(new.names_view(), m)
                == index_of_name(old.names_view(), m),
        forall|m: Seq<char>|
            m != cmd.spec_name() && #[trigger] index_of_name(old.names_view(), m) is Some
                ==> new.commands_view()[index_of_name(old.names_view(), m)->0]
                == old.commands_view()[index_of_name(old.names_view(), m)->0],
        new.names_view().len() == old.names_view().len() + if index_of_name(
            old.names_view(),
            cmd.spec_name(),
        ) is None {
            1int
        } else {
            0int
        },
{
    CommandRegistry::<C>::lemma_registered_then_found(old, new, cmd.spec_name(), cmd);
}

/// The position of the last command in `cmds` that reports the name `n`.
pub open spec fn last_named<C: DddCommand + ?Sized>(cmds: Seq<Box<C>>, n: Seq<char>) -> Option<int>
    decreases cmds.len(),
{
    if cmds.len() == 0 {
        None
    } else if cmds.last().spec_name() == n {
        Some(cmds.len() - 1)
    } else {
        last_named(cmds.drop_last(), n)
    }
}

/// `regs` are the registries that registering `cmds` one after another into
/// an empty registry passes through: `regs[0]` is empty and `regs[i + 1]` is
/// `regs[i]` with `cmds[i]` registered under the name it reports.
pub open spec fn registration_run<C: DddCommand + ?Sized>(
    regs: Seq<CommandRegistry<C>>,
    cmds: Seq<Box<C>>,
) -> bool {
    &&& regs.len() == cmds.len() + 1
    &&& regs[0].names_view().len() == 0
    &&& forall|i: int| 0 <= i < regs.len() ==> (#[trigger] regs[i]).wf()
    &&& forall|i: int|
        0 <= i < cmds.len() ==> (#[trigger] regs[i]).registered(regs[i + 1], cmds[i].spec_name(), cmds[i])
}

proof fn lemma_last_named<C: DddCommand + ?Sized>(cmds: Seq<Box<C>>, n: Seq<char>)
    ensures
        last_named(cmds, n) is Some <==> exists|i: int| 0 <= i < cmds.len() && (#[trigger] cmds[i]).spec_name() == n,
        last_named(cmds, n) matches Some(i) ==> 0 <= i < cmds.len() && cmds[i].spec_name() == n,
    decreases cmds.len(),
{
    if cmds.len() > 0 {
        let d = cmds.drop_last();
        lemma_last_named(d, n);
        if cmds.last().spec_name() != n {
            if exists|i: int| 0 <= i < cmds.len() && (#[trigger] cmds[i]).spec_name() == n {
                let i = choose|i: int| 0 <= i < cmds.len() && (#[trigger] cmds[i]).spec_name() == n;
                assert(i < cmds.len() - 1);
                assert(d[i] == cmds[i]);
            }
            if exists|i: int| 0 <= i < d.len() && (#[trigger] d[i]).spec_name() == n {
                let i = choose|i: int| 0 <= i < d.len() && (#[trigger] d[i]).spec_name() == n;
                assert(cmds[i] == d[i]);
            }
        }
    }
}

proof fn lemma_run_prefix<C: DddCommand + ?Sized>(
    regs: Seq<CommandRegistry<C>>,
    cmds: Seq<Box<C>>,
    k: int,
)
    requires
        registration_run(regs, cmds),
        0 <= k <= cmds.len(),
    ensures
        forall|n: Seq<char>|
            #[trigger] index_of_name(regs[k].names_view(), n) is Some <==> last_named(cmds.take(k), n) is Some,
        forall|n: Seq<char>|
            #[trigger] index_of_name(regs[k].names_view(), n) is Some ==> regs[k].commands_view()[index_of_name(
                regs[k].names_view(),
                n,
            )->0] == cmds[last_named(cmds.take(k), n)->0],
    decreases k,
{
    if k == 0 {
        assert forall|n: Seq<char>| #[trigger] index_of_name(regs[0].names_view(), n) is None by {}
        assert(cmds.take(0).len() == 0);
    } else {
        lemma_run_prefix(regs, cmds, k - 1);
        let old = regs[k - 1];
        let new = regs[k];
        let c = cmds[k - 1];
        assert(old.wf());
        assert(new.wf());
        assert(old.registered(new, c.spec_name(), c));
        CommandRegistry::<C>::lemma_registered_then_found(old, new, c.spec_name(), c);
        let t = cmds.take(k);
        assert(t.drop_last() =~= cmds.take(k - 1));
        assert(t.last() == c);
        assert forall|n: Seq<char>|
            #[trigger] index_of_name(new.names_view(), n) is Some <==> last_named(t, n) is Some by {
            if n != c.spec_name() {
                assert(index_of_name(new.names_view(), n) == index_of_name(old.names_view(), n));
                assert(index_of_name(old.names_view(), n) is Some <==> last_named(cmds.take(k - 1), n) is Some);
            }
        }
        assert forall|n: Seq<char>| #[trigger] index_of_name(new.names_view(), n) is Some implies new.commands_view()[index_of_name(
            new.names_view(),
            n,
        )->0] == cmds[last_named(t, n)->0] by {
            if n != c.spec_name() {
                assert(index_of_name(new.names_view(), n) == index_of_name(old.names_view(), n));
                assert(index_of_name(old.names_view(), n) is Some);
            }
        }
    }
}

/// Registering commands one after another into an empty registry: a name
/// finds a command exactly when some registered command reports it, and then
/// finds the last one registered that reports it; the names are those the
/// registered commands report, none twice, one per command.
pub proof fn law_registrations<C: DddCommand + ?Sized>(
    regs: Seq<CommandRegistry<C>>,
    cmds: Seq<Box<C>>,
)
    requires
        registration_run(regs, cmds),
    ensures
        forall|n: Seq<char>|
            #[trigger] index_of_name(regs.last().names_view(), n) is Some <==> exists|i: int|
                0 <= i < cmds.len() && (#[trigger] cmds[i]).spec_name() == n,
        forall|n: Seq<char>|
            #[trigger] index_of_name(regs.last().names_view(), n) is Some ==> (
            last_named(cmds, n) matches Some(i) && regs.last().commands_view()[index_of_name(
                regs.last().names_view(),
                n,
            )->0] == cmds[i] && cmds[i].spec_name() == n && forall|j: int|
                i < j < cmds.len() ==> (#[trigger] cmds[j]).spec_name() != n),
        distinct_keys(regs.last().names_view()),
        regs.last().names_view().len() == regs.last().commands_view().len(),
        regs.last().names_view().to_set() == Set::new(
            |n: Seq<char>| exists|i: int| 0 <= i < cmds.len() && (#[trigger] cmds[i]).spec_name() == n,
        ),
{
    let k = cmds.len() as int;
    lemma_run_prefix(regs, cmds, k);
    assert(cmds.take(k) =~= cmds);
    let r = regs.last();
    assert(r == regs[k]);
    assert(r.wf());
    r.lemma_wf_facts();
    assert forall|n: Seq<char>| #[trigger] index_of_name(r.names_view(), n) is Some <==> exists|i: int|
        0 <= i < cmds.len() && (#[trigger] cmds[i]).spec_name() == n by {
        lemma_last_named(cmds, n);
    }
    assert forall|n: Seq<char>| #[trigger] index_of_name(r.names_view(), n) is Some implies (
    last_named(cmds, n) matches Some(i) && r.commands_view()[index_of_name(r.names_view(), n)->0] == cmds[i]
        && cmds[i].spec_name() == n && forall|j: int| i < j < cmds.len() ==> (#[trigger] cmds[j]).spec_name() != n) by {
        lemma_last_named(cmds, n);
        lemma_last_named_is_last(cmds, n);
    }
    assert forall|n: Seq<char>| r.names_view().to_set().contains(n) <==> exists|i: int|
        0 <= i < cmds.len() && (#[trigger] cmds[i]).spec_name() == n by {
        lemma_last_named(cmds, n);
        if r.names_view().contains(n) {
            let j = choose|j: int| 0 <= j < r.names_view().len() && r.names_view()[j] == n;
            assert(exists|i: int| 0 <= i < r.names_view().len() && r.names_view()[i] == n);
        }
        if index_of_name(r.names_view(), n) is Some {
            let j = index_of_name(r.names_view(), n)->0;
            assert(r.names_view()[j] == n);
        }
    }
    assert(r.names_view().to_set() =~= Set::new(
        |n: Seq<char>| exists|i: int| 0 <= i < cmds.len() && (#[trigger] cmds[i]).spec_name() == n,
    ));
}

proof fn lemma_last_named_is_last<C: DddCommand + ?Sized>(cmds: Seq<Box<C>>, n: Seq<char>)
    ensures
        last_named(cmds, n) matches Some(i) ==> forall|j: int|
            i < j < cmds.len() ==> (#[trigger] cmds[j]).spec_name() != n,
    decreases cmds.len(),
{
    if cmds.len() > 0 && cmds.last().spec_name() != n {
        let d = cmds.drop_last();
        lemma_last_named_is_last(d, n);
        lemma_last_named(d, n);
        if last_named(d, n) is Some {
            let i = last_named(d, n)->0;
            assert forall|j: int| i < j < cmds.len() implies (#[trigger] cmds[j]).spec_name() != n by {
                if j < cmds.len() - 1 {
                    assert(cmds[j] == d[j]);
                }
            }
        }
    }
}

proof fn lemma_digit_char_injective(a: nat, b: nat)
    requires
        a < 10,
        b < 10,
        digit_char(a) == digit_char(b),
    ensures
        a == b,
{
}

proof fn lemma_decimal_len(n: nat)
    ensures
        decimal(n).len() >= 1,
        n >= 10 ==> decimal(n).len() >= 2,
    decreases n,
{
    if n >= 10 {
        lemma_decimal_len(n / 10);
    }
}

/// Different numbers have different decimal texts.
pub proof fn lemma_decimal_injective(a: nat, b: nat)
    requires
        decimal(a) == decimal(b),
    ensures
        a == b,
    decreases a,
{
    lemma_decimal_len(a);
    lemma_decimal_len(b);
    if a < 10 && b < 10 {
        assert(decimal(a) == seq![digit_char(a)]);
        assert(decimal(b) == seq![digit_char(b)]);
        assert(decimal(a)[0] == decimal(b)[0]);
        assert(seq![digit_char(a)][0] == digit_char(a));
        assert(seq![digit_char(b)][0] == digit_char(b));
        lemma_digit_char_injective(a, b);
    } else if a >= 10 && b >= 10 {
        let da = decimal(a);
        let db = decimal(b);
        assert(da.last() == db.last());
        assert(da.last() == digit_char(a % 10));
        assert(db.last() == digit_char(b % 10));
        lemma_digit_char_injective(a % 10, b % 10);
        assert(da.drop_last() =~= decimal(a / 10));
        assert(db.drop_last() =~= decimal(b / 10));
        lemma_decimal_injective(a / 10, b / 10);
    } else {
        assert(decimal(a).len() != decimal(b).len());
    }
}

/// The phases of an accepted plan have pairwise different names.
pub proof fn law_accepted_names_distinct(docs: Seq<Seq<char>>, i: int, j: int)
    requires
        0 <= i < docs.len(),
        0 <= j < docs.len(),
        i != j,
    ensures
        phase_entry(docs[i], i).0 != phase_entry(docs[j], j).0,
{
    reveal_strlit("Phase");
    let a = decimal((i + 1) as nat);
    let b = decimal((j + 1) as nat);
    if "Phase"@ + a == "Phase"@ + b {
        assert(a =~= ("Phase"@ + a).skip(5));
        assert(b =~= ("Phase"@ + b).skip(5));
        lemma_decimal_injective((i + 1) as nat, (j + 1) as nat);
    }
}

/// Accepting a plan keeps exactly the phase documents (Markdown files not
/// named `index...`), each as often as it occurs, and puts them in natural
/// order: a document without a number first, then by the first number in the
/// name, and by the name where the numbers agree.
pub proof fn law_accept_natural_order(names: Seq<Seq<char>>)
    ensures
        ordered_phase_docs(names).to_multiset() == names.filter(|n: Seq<char>| is_phase_doc(n)).to_multiset(),
        forall|i: int| 0 <= i < ordered_phase_docs(names).len() ==> is_phase_doc(#[trigger] ordered_phase_docs(names)[i]),
        forall|i: int, j: int|
            0 <= i < j < ordered_phase_docs(names).len() ==> name_le(
                #[trigger] ordered_phase_docs(names)[i],
                #[trigger] ordered_phase_docs(names)[j],
            ),
        forall|i: int, j: int|
            0 <= i < j < ordered_phase_docs(names).len() && #[trigger] sort_number(ordered_phase_docs(names)[i]) is Some
                && #[trigger] sort_number(ordered_phase_docs(names)[j]) is Some ==> sort_number(ordered_phase_docs(names)[i])->0
                <= sort_number(ordered_phase_docs(names)[j])->0,
{
    let pred = |n: Seq<char>| is_phase_doc(n);
    let filtered = names.filter(pred);
    let d = ordered_phase_docs(names);
    lemma_name_order_total();
    filtered.lemma_sort_by_ensures(name_order());
    assert(d == filtered.sort_by(name_order()));
    assert forall|i: int, j: int| 0 <= i < j < d.len() implies name_le(#[trigger] d[i], #[trigger] d[j]) by {
        assert(name_order()(d[i], d[j]));
    }
    assert forall|i: int| 0 <= i < d.len() implies is_phase_doc(#[trigger] d[i]) by {
        assert(d.contains(d[i]));
        if !filtered.contains(d[i]) {
            assert(!d.contains(d[i]));
        }
        let k = choose|k: int| 0 <= k < filtered.len() && filtered[k] == d[i];
        names.lemma_filter_pred(pred, k);
    }
}

/// A file of the phases directory is a phase document exactly when its name
/// ends with `.md` and does not begin with `index`; a name that merely holds
/// `index` elsewhere is one. So accepting a plan keeps exactly the names of
/// that form, each as often as it occurs.
pub proof fn law_phase_docs_are_markdown_not_index(names: Seq<Seq<char>>, n: Seq<char>)
    ensures
        is_phase_doc(n) <==> (n.len() >= 3 && n.skip(n.len() - 3) =~= ".md"@ && !(n.len() >= 5
            && n.take(5) =~= "index"@)),
        ordered_phase_docs(names).to_multiset() == names.filter(
            |m: Seq<char>|
                m.len() >= 3 && m.skip(m.len() - 3) =~= ".md"@ && !(m.len() >= 5 && m.take(5)
                    =~= "index"@),
        ).to_multiset(),
{
    let raw = |m: Seq<char>|
        m.len() >= 3 && m.skip(m.len() - 3) =~= ".md"@ && !(m.len() >= 5 && m.take(5) =~= "index"@);
    let pred = |m: Seq<char>| is_phase_doc(m);
    reveal_strlit(".md");
    reveal_strlit("index");
    assert(pred =~= raw);
    law_accept_natural_order(names);
}

/// Confirmation stops to wait for the user exactly when the phase the
/// pointer names has not started (its status is `init`); with the documents
/// ready and a pointer that names a phase in any other status (in
/// development, being verified, with an issue found, being fixed), it goes
/// ahead: that phase becomes finished and the pointer moves on.
pub proof fn law_confirm_waits_only_for_unstarted_phase(s: RoadmapView, n: Seq<char>, i: int)
    requires
        s.doc_ready,
        s.current_phase == Some(n),
        is_first_named(s.phrases, n, i),
    ensures
        s.phrases[i].status == "init"@ ==> confirm_gate(s) == Some("等待用户输入"@),
        s.phrases[i].status != "init"@ ==> confirm_gate(s) is None,
        s.phrases[i].status != "init"@ ==> advanced(s, i).phrases[i].status == "finished"@
            && advanced(s, i).current_phase == (if i + 1 < s.phrases.len() {
            Some(s.phrases[i + 1].name)
        } else {
            None
        }),
{
    lemma_first_named_is(s.phrases, n, i);
}

/// The rows of the progress table: one row per phase, in order, whatever
/// its status, each `| name | status | file |`.
pub proof fn law_report_has_a_row_per_phase(s: RoadmapView, time: Seq<char>)
    ensures
        phase_rows(s.phrases) == s.phrases.map_values(|p: PhraseView| table_row(p)).flatten(),
        report_text(s, time) == "# DocDriven 项目报告\n\n**生成时间**: "@ + time
            + "\n\n**工作流状态**: "@ + s.workflow
            + "\n\n## 阶段进度\n\n| 阶段 | 状态 | 文件 |\n|------|------|------|\n"@
            + s.phrases.map_values(|p: PhraseView| table_row(p)).flatten()
            + "\n---\n\n*报告由 DocDriven CLI 自动生成*\n"@,
{
    lemma_rows_flatten(s.phrases);
}

proof fn lemma_rows_flatten(ps: Seq<PhraseView>)
    ensures
        phase_rows(ps) == ps.map_values(|p: PhraseView| table_row(p)).flatten(),
    decreases ps.len(),
{
    let f = |p: PhraseView| table_row(p);
    if ps.len() == 0 {
        assert(ps.map_values(f) =~= Seq::<Seq<char>>::empty());
    } else {
        let d = ps.drop_last();
        lemma_rows_flatten(d);
        assert(ps.map_values(f) =~= d.map_values(f).push(table_row(ps.last())));
        d.map_values(f).lemma_flatten_push(table_row(ps.last()));
        assert(phase_rows(ps) =~= phase_rows(d) + table_row(ps.last()));
    }
}

/// Archiving is refused exactly when some phase has not finished, and the
/// refusal lists every phase whose status is not `finished`, in order, each
/// on a line of its own with its status.
pub proof fn law_archive_refused_unless_all_finished(ps: Seq<PhraseView>)
    ensures
        has_unfinished(ps) <==> !all_finished(ps),
        unfinished_lines(ps) == ps.filter(|p: PhraseView| p.status != "finished"@).map_values(
            |p: PhraseView| unfinished_line(p),
        ).flatten(),
{
    lemma_unfinished_flatten(ps);
}

proof fn lemma_unfinished_flatten(ps: Seq<PhraseView>)
    ensures
        unfinished_lines(ps) == ps.filter(|p: PhraseView| p.status != "finished"@).map_values(
            |p: PhraseView| unfinished_line(p),
        ).flatten(),
    decreases ps.len(),
{
    let pred = |p: PhraseView| p.status != "finished"@;
    let f = |p: PhraseView| unfinished_line(p);
    if ps.len() == 0 {
        assert(ps.filter(pred) =~= Seq::<PhraseView>::empty());
        assert(ps.filter(pred).map_values(f) =~= Seq::<Seq<char>>::empty());
    } else {
        let d = ps.drop_last();
        lemma_unfinished_flatten(d);
        assert(ps =~= d.push(ps.last()));
        d.lemma_filter_push(ps.last(), pred);
        if pred(ps.last()) {
            assert(ps.filter(pred).map_values(f) =~= d.filter(pred).map_values(f).push(
                unfinished_line(ps.last()),
            ));
            d.filter(pred).map_values(f).lemma_flatten_push(unfinished_line(ps.last()));
            assert(unfinished_lines(ps) =~= unfinished_lines(d) + unfinished_line(ps.last()));
        } else {
            assert(ps.filter(pred) == d.filter(pred));
        }
    }
}

} // verus!
