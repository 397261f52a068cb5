//! The roadmap: the workflow state, the ordered phases with their statuses,
//! and the pointer to the phase under way.
use vstd::prelude::*;
use crate::clock::{rfc3339_utc, utc_now_rfc3339};
use crate::text::same_text;

verus! {

pub const WORKFLOW_INIT: &'static str = "init";
pub const WORKFLOW_READY: &'static str = "ready";
pub const WORKFLOW_DEV: &'static str = "dev";
pub const WORKFLOW_ARCHIVED: &'static str = "archived";

pub const PHASE_INIT: &'static str = "init";
pub const PHASE_DEV: &'static str = "dev";
pub const PHASE_VERIFYING: &'static str = "verifying";
pub const PHASE_ISSUE_FOUND: &'static str = "issue_found";
pub const PHASE_FIXING: &'static str = "fixing";
pub const PHASE_FINISHED: &'static str = "finished";

pub const FIX_PENDING: &'static str = "pending";
pub const FIX_PLANNED: &'static str = "planned";
pub const FIX_EXECUTING: &'static str = "executing";
pub const FIX_DONE: &'static str = "done";
pub const FIX_FAILED: &'static str = "failed";

/// A fix recorded against a phase.
#[derive(Debug, Clone)]
pub struct Fix {
    pub id: u32,
    pub status: String,
    pub plan_file: String,
}

/// One development phase of the roadmap.
#[derive(Debug, Clone)]
pub struct Phrase {
    pub name: String,
    pub status: String,
    pub file: String,
    pub fixes: Vec<Fix>,
}

/// The whole persisted workflow state.
#[derive(Debug, Clone)]
pub struct RoadmapState {
    pub version: String,
    pub updated_at: String,
    pub workflow: String,
    pub current_phase: Option<String>,
    pub doc_ready: bool,
    pub phrases: Vec<Phrase>,
}

/// Why a roadmap was refused or an operation on it failed.
#[derive(Debug, Clone)]
pub enum RoadmapError {
    /// The workflow field holds a value outside the workflow states.
    InvalidWorkflow(String),
    /// A phase status holds a value outside the phase states.
    InvalidPhraseStatus(String),
    /// A fix status holds a value outside the fix states.
    InvalidFixStatus(String),
    /// The current-phase pointer names no phase of the roadmap.
    MissingCurrentPhrase,
}

/// The mathematical value of a fix.
#[verifier::ext_equal]
pub struct FixView {
    pub id: u32,
    pub status: Seq<char>,
    pub plan_file: Seq<char>,
}

/// The mathematical value of a phase.
#[verifier::ext_equal]
pub struct PhraseView {
    pub name: Seq<char>,
    pub status: Seq<char>,
    pub file: Seq<char>,
    pub fixes: Seq<FixView>,
}

/// The mathematical value of a roadmap.
#[verifier::ext_equal]
pub struct RoadmapView {
    pub version: Seq<char>,
    pub updated_at: Seq<char>,
    pub workflow: Seq<char>,
    pub current_phase: Option<Seq<char>>,
    pub doc_ready: bool,
    pub phrases: Seq<PhraseView>,
}

impl View for Fix {
    type V = FixView;

    open spec fn view(&self) -> FixView {
        FixView { id: self.id, status: self.status@, plan_file: self.plan_file@ }
    }
}

impl View for Phrase {
    type V = PhraseView;

    open spec fn view(&self) -> PhraseView {
        PhraseView {
            name: self.name@,
            status: self.status@,
            file: self.file@,
            fixes: self.fixes@.map_values(|f: Fix| f@),
        }
    }
}

/// The values of an optional name.
pub open spec fn opt_view(o: Option<String>) -> Option<Seq<char>> {
    match o {
        Some(s) => Some(s@),
        None => None,
    }
}

impl View for RoadmapState {
    type V = RoadmapView;

    open spec fn view(&self) -> RoadmapView {
        RoadmapView {
            version: self.version@,
            updated_at: self.updated_at@,
            workflow: self.workflow@,
            current_phase: opt_view(self.current_phase),
            doc_ready: self.doc_ready,
            phrases: self.phrases@.map_values(|p: Phrase| p@),
        }
    }
}

impl RoadmapError {
    /// The text of the error.
    pub fn message(&self) -> (r: String)
        ensures
            self matches RoadmapError::InvalidWorkflow(w) ==> r@ == "Invalid workflow state: "@
                + w@ + ", expected one of: [\"init\", \"ready\", \"dev\", \"archived\"]"@,
            self matches RoadmapError::InvalidPhraseStatus(st) ==> r@ == "Invalid phrase status: "@
                + st@
                + ", expected one of: [\"init\", \"dev\", \"verifying\", \"issue_found\", \"fixing\", \"finished\"]"@,
            self matches RoadmapError::InvalidFixStatus(st) ==> r@ == "Invalid fix status: "@ + st@
                + ", expected one of: [\"pending\", \"planned\", \"executing\", \"done\", \"failed\"]"@,
            self is MissingCurrentPhrase ==> r@ == "current_phase references missing phrase"@,
    {
        match self {
            RoadmapError::InvalidWorkflow(w) => "Invalid workflow state: ".to_owned().concat(
                w.as_str(),
            ).concat(", expected one of: [\"init\", \"ready\", \"dev\", \"archived\"]"),
            RoadmapError::InvalidPhraseStatus(st) => "Invalid phrase status: ".to_owned().concat(
                st.as_str(),
            ).concat(
                ", expected one of: [\"init\", \"dev\", \"verifying\", \"issue_found\", \"fixing\", \"finished\"]",
            ),
            RoadmapError::InvalidFixStatus(st) => "Invalid fix status: ".to_owned().concat(
                st.as_str(),
            ).concat(", expected one of: [\"pending\", \"planned\", \"executing\", \"done\", \"failed\"]"),
            RoadmapError::MissingCurrentPhrase => "current_phase references missing phrase".to_owned(),
        }
    }
}

/// The workflow states.
pub open spec fn valid_workflow(w: Seq<char>) -> bool {
    w == "init"@ || w == "ready"@ || w == "dev"@ || w == "archived"@
}

/// The phase states.
pub open spec fn valid_phase_status(s: Seq<char>) -> bool {
    s == "init"@ || s == "dev"@ || s == "verifying"@ || s == "issue_found"@ || s == "fixing"@ || s
        == "finished"@
}

/// The fix states.
pub open spec fn valid_fix_status(s: Seq<char>) -> bool {
    s == "pending"@ || s == "planned"@ || s == "executing"@ || s == "done"@ || s == "failed"@
}

/// A fix whose status is one of the fix states.
pub open spec fn fix_ok(f: FixView) -> bool {
    valid_fix_status(f.status)
}

/// A phase whose status, and the status of each of whose fixes, is admitted.
pub open spec fn phrase_ok(p: PhraseView) -> bool {
    &&& valid_phase_status(p.status)
    &&& forall|k: int| 0 <= k < p.fixes.len() ==> #[trigger] fix_ok(p.fixes[k])
}

impl RoadmapView {
    /// The workflow, every phase status and every fix status hold admitted
    /// values.
    pub open spec fn is_valid(self) -> bool {
        &&& valid_workflow(self.workflow)
        &&& forall|i: int| 0 <= i < self.phrases.len() ==> #[trigger] phrase_ok(self.phrases[i])
    }
}

/// Index `i` holds a phase called `name`, and no earlier index does.
pub open spec fn is_first_named(ps: Seq<PhraseView>, name: Seq<char>, i: int) -> bool {
    &&& 0 <= i < ps.len()
    &&& ps[i].name == name
    &&& forall|j: int| 0 <= j < i ==> ps[j].name != name
}

/// The index of the first phase called `name`, if any.
pub open spec fn first_named(ps: Seq<PhraseView>, name: Seq<char>) -> Option<int> {
    if exists|i: int| is_first_named(ps, name, i) {
        Some(choose|i: int| is_first_named(ps, name, i))
    } else {
        None
    }
}

/// The first index of a name is the one that `first_named` gives.
pub proof fn lemma_first_named_is(ps: Seq<PhraseView>, name: Seq<char>, i: int)
    requires
        is_first_named(ps, name, i),
    ensures
        first_named(ps, name) == Some(i),
{
    let k = choose|k: int| is_first_named(ps, name, k);
    assert(is_first_named(ps, name, k));
    if k < i {
        assert(ps[k].name != name);
    } else if k > i {
        assert(ps[i].name != name);
    }
}

/// Phase `i` with its status replaced.
pub open spec fn with_status(ps: Seq<PhraseView>, i: int, st: Seq<char>) -> Seq<PhraseView> {
    ps.update(i, PhraseView { status: st, ..ps[i] })
}

/// The phase that the roadmap considers current: the first one named by the
/// pointer; none without a pointer.
pub open spec fn current_index(s: RoadmapView) -> Option<int> {
    match s.current_phase {
        Some(n) => first_named(s.phrases, n),
        None => None,
    }
}

/// Every phase has finished.
pub open spec fn all_finished(ps: Seq<PhraseView>) -> bool {
    forall|i: int| 0 <= i < ps.len() ==> #[trigger] ps[i].status == "finished"@
}

/// What `advance_phase` does: with no pointer nothing; with a pointer that
/// names no phase an error; otherwise the named phase becomes finished and the
/// pointer moves to the next phase, which is returned, or is cleared after the
/// last one.
pub open spec fn advance_post(
    old: RoadmapView,
    new: RoadmapView,
    r: Result<Option<PhraseView>, RoadmapError>,
) -> bool {
    match old.current_phase {
        None => new == old && r == Ok::<Option<PhraseView>, RoadmapError>(None),
        Some(n) => match first_named(old.phrases, n) {
            None => new == old && r matches Err(RoadmapError::MissingCurrentPhrase),
            Some(i) => {
                &&& new == advanced(old, i)
                &&& r == Ok::<Option<PhraseView>, RoadmapError>(
                    if i + 1 < old.phrases.len() {
                        Some(new.phrases[i + 1])
                    } else {
                        None
                    },
                )
            },
        },
    }
}

/// The roadmap once phase `i` is confirmed: it becomes finished and the
/// pointer moves to the next phase, or is cleared after the last one.
pub open spec fn advanced(s: RoadmapView, i: int) -> RoadmapView {
    RoadmapView {
        phrases: with_status(s.phrases, i, "finished"@),
        current_phase: if i + 1 < s.phrases.len() {
            Some(s.phrases[i + 1].name)
        } else {
            None
        },
        ..s
    }
}

/// The value of what `advance_phase` returns.
pub open spec fn advance_result_view(r: Result<Option<&Phrase>, RoadmapError>) -> Result<
    Option<PhraseView>,
    RoadmapError,
> {
    match r {
        Ok(Some(p)) => Ok(Some(p@)),
        Ok(None) => Ok(None),
        Err(e) => Err(e),
    }
}

impl Fix {
    /// A copy of the fix.
    pub fn duplicate(&self) -> (r: Fix)
        ensures
            r@ == self@,
    {
        Fix { id: self.id, status: self.status.clone(), plan_file: self.plan_file.clone() }
    }
}

/// A copy of a list of fixes.
fn duplicate_fixes(v: &Vec<Fix>) -> (r: Vec<Fix>)
    ensures
        r@.map_values(|f: Fix| f@) == v@.map_values(|f: Fix| f@),
{
    let mut r: Vec<Fix> = Vec::new();
    let mut i: usize = 0;
    while i < v.len()
        invariant
            i <= v@.len(),
            r@.len() == i,
            forall|j: int| 0 <= j < i ==> (#[trigger] r@[j])@ == v@[j]@,
        decreases v@.len() - i,
    {
        r.push(v[i].duplicate());
        i = i + 1;
    }
    assert(r@.map_values(|f: Fix| f@) =~= v@.map_values(|f: Fix| f@));
    r
}

impl Phrase {
    /// A copy of the phase.
    pub fn duplicate(&self) -> (r: Phrase)
        ensures
            r@ == self@,
    {
        Phrase {
            name: self.name.clone(),
            status: self.status.clone(),
            file: self.file.clone(),
            fixes: duplicate_fixes(&self.fixes),
        }
    }
}

fn duplicate_phrases(v: &Vec<Phrase>) -> (r: Vec<Phrase>)
    ensures
        r@.map_values(|p: Phrase| p@) == v@.map_values(|p: Phrase| p@),
{
    let mut r: Vec<Phrase> = Vec::new();
    let mut i: usize = 0;
    while i < v.len()
        invariant
            i <= v@.len(),
            r@.len() == i,
            forall|j: int| 0 <= j < i ==> (#[trigger] r@[j])@ == v@[j]@,
        decreases v@.len() - i,
    {
        r.push(v[i].duplicate());
        i = i + 1;
    }
    assert(r@.map_values(|p: Phrase| p@) =~= v@.map_values(|p: Phrase| p@));
    r
}

fn duplicate_name(o: &Option<String>) -> (r: Option<String>)
    ensures
        r == *o,
{
    match o {
        Some(s) => Some(s.clone()),
        None => None,
    }
}

/// Whether `s` is one of the workflow states.
pub fn is_workflow_state(s: &str) -> (r: bool)
    ensures
        r == valid_workflow(s@),
{
    same_text(s, WORKFLOW_INIT) || same_text(s, WORKFLOW_READY) || same_text(s, WORKFLOW_DEV)
        || same_text(s, WORKFLOW_ARCHIVED)
}

/// Whether `s` is one of the phase states.
pub fn is_phase_state(s: &str) -> (r: bool)
    ensures
        r == valid_phase_status(s@),
{
    same_text(s, PHASE_INIT) || same_text(s, PHASE_DEV) || same_text(s, PHASE_VERIFYING)
        || same_text(s, PHASE_ISSUE_FOUND) || same_text(s, PHASE_FIXING) || same_text(
        s,
        PHASE_FINISHED,
    )
}

/// Whether `s` is one of the fix states.
pub fn is_fix_state(s: &str) -> (r: bool)
    ensures
        r == valid_fix_status(s@),
{
    same_text(s, FIX_PENDING) || same_text(s, FIX_PLANNED) || same_text(s, FIX_EXECUTING)
        || same_text(s, FIX_DONE) || same_text(s, FIX_FAILED)
}

/// The first fix of a list whose status is not admitted, if any.
fn first_bad_fix(fixes: &Vec<Fix>) -> (r: Option<usize>)
    ensures
        match r {
            Some(k) => k < fixes@.len() && first_where(
                fixes@.map_values(|f: Fix| f@),
                |f: FixView| !fix_ok(f),
            ) == Some(k as int),
            None => first_where(fixes@.map_values(|f: Fix| f@), |f: FixView| !fix_ok(f)) is None,
        },
        r is None ==> forall|k: int| 0 <= k < fixes@.len() ==> #[trigger] fix_ok(fixes@[k]@),
{
    let ghost fv = fixes@.map_values(|f: Fix| f@);
    let ghost p = |f: FixView| !fix_ok(f);
    let mut i: usize = 0;
    while i < fixes.len()
        invariant
            fv == fixes@.map_values(|f: Fix| f@),
            p == (|f: FixView| !fix_ok(f)),
            i <= fv.len(),
            forall|j: int| 0 <= j < i ==> !p(#[trigger] fv[j]),
        decreases fv.len() - i,
    {
        if !is_fix_state(fixes[i].status.as_str()) {
            proof {
                assert(p(fv[i as int]));
                lemma_first_where_is(fv, p, i as int);
            }
            return Some(i);
        }
        i = i + 1;
    }
    proof {
        assert forall|k: int| 0 <= k < fixes@.len() implies #[trigger] fix_ok(fixes@[k]@) by {
            assert(fv[k] == fixes@[k]@);
            assert(!p(fv[k]));
        }
        if exists|j: int| is_first_where(fv, p, j) {
            let j = choose|j: int| is_first_where(fv, p, j);
            assert(!p(fv[j]));
        }
    }
    None
}

/// The index of the first phase called `name`.
pub fn position_of(ps: &Vec<Phrase>, name: &str) -> (r: Option<usize>)
    ensures
        match r {
            Some(k) => first_named(ps@.map_values(|p: Phrase| p@), name@) == Some(k as int),
            None => first_named(ps@.map_values(|p: Phrase| p@), name@) is None,
        },
        r matches Some(k) ==> is_first_named(ps@.map_values(|p: Phrase| p@), name@, k as int),
{
    let ghost pv = ps@.map_values(|p: Phrase| p@);
    let mut i: usize = 0;
    while i < ps.len()
        invariant
            pv == ps@.map_values(|p: Phrase| p@),
            i <= ps@.len(),
            forall|j: int| 0 <= j < i ==> pv[j].name != name@,
        decreases ps@.len() - i,
    {
        if same_text(ps[i].name.as_str(), name) {
            proof {
                lemma_first_named_is(pv, name@, i as int);
            }
            return Some(i);
        }
        i = i + 1;
    }
    None
}

/// Setting the status of phase `i` changes the value of the phases accordingly.
pub proof fn lemma_set_status_view(old: Seq<Phrase>, new: Seq<Phrase>, i: int, st: Seq<char>)
    requires
        0 <= i < old.len(),
        new.len() == old.len(),
        forall|j: int| 0 <= j < old.len() && j != i ==> new[j] == old[j],
        new[i].name == old[i].name,
        new[i].file == old[i].file,
        new[i].fixes == old[i].fixes,
        new[i].status@ == st,
    ensures
        new.map_values(|p: Phrase| p@) == with_status(old.map_values(|p: Phrase| p@), i, st),
{
    assert(new.map_values(|p: Phrase| p@) =~= with_status(old.map_values(|p: Phrase| p@), i, st));
}

impl RoadmapState {
    /// A fresh roadmap: version 1.0.0, workflow `init`, no phases, documents
    /// not ready, stamped with the current UTC time in RFC 3339 form.
    pub fn new() -> (r: Self)
        ensures
            r@.version == "1.0.0"@,
            r@.workflow == "init"@,
            r@.current_phase is None,
            !r@.doc_ready,
            r@.phrases.len() == 0,
            rfc3339_utc(r@.updated_at),
    {
        RoadmapState {
            version: "1.0.0".to_owned(),
            updated_at: utc_now_rfc3339(),
            workflow: WORKFLOW_INIT.to_owned(),
            current_phase: None,
            doc_ready: false,
            phrases: Vec::new(),
        }
    }

    /// A copy of the roadmap.
    pub fn duplicate(&self) -> (r: Self)
        ensures
            r@ == self@,
    {
        RoadmapState {
            version: self.version.clone(),
            updated_at: self.updated_at.clone(),
            workflow: self.workflow.clone(),
            current_phase: duplicate_name(&self.current_phase),
            doc_ready: self.doc_ready,
            phrases: duplicate_phrases(&self.phrases),
        }
    }

    /// Returns the currently active phase, if one is set: the first phase
    /// named by the pointer, the pointer then being set to that phase's name.
    /// Returns `None`, changing nothing, when no pointer is set or it names
    /// no phase.
    pub fn fetch_current_phase(&mut self) -> (r: Option<&Phrase>)
        ensures
            match current_index(old(self)@) {
                Some(i) => {
                    &&& final(self)@ == pointed_at(old(self)@, i)
                    &&& r matches Some(p) && p@ == old(self)@.phrases[i]
                },
                None => final(self)@ == old(self)@ && r is None,
            },
    {
        let found = match &self.current_phase {
            Some(name) => position_of(&self.phrases, name.as_str()),
            None => None,
        };
        let ghost old_v = self@;
        match found {
            Some(i) => {
                let name = self.phrases[i].name.clone();
                self.current_phase = Some(name);
                proof {
                    assert(old_v.phrases[i as int] == self.phrases@[i as int]@);
                    assert(self@ =~= pointed_at(old_v, i as int));
                }
                Some(&self.phrases[i])
            },
            None => None,
        }
    }

    /// Starts work on the named phase: the workflow becomes `dev`, the pointer
    /// names the phase, and the first phase of that name becomes `dev`.
    pub fn set_phase_dev(&mut self, phase_name: &str)
        ensures
            final(self)@ == dev_started(old(self)@, phase_name@),
    {
        let ghost old_v = self@;
        self.workflow = WORKFLOW_DEV.to_owned();
        self.current_phase = Some(phase_name.to_owned());
        match position_of(&self.phrases, phase_name) {
            Some(i) => {
                let ghost before = self.phrases@;
                self.phrases[i].status = PHASE_DEV.to_owned();
                proof {
                    lemma_set_status_view(before, self.phrases@, i as int, "dev"@);
                }
            },
            None => {},
        }
        assert(self@ =~= dev_started(old_v, phase_name@));
    }

    /// Marks the first phase of the given name as finished.
    pub fn set_phase_finished(&mut self, phase_name: &str)
        ensures
            final(self)@ == marked_finished(old(self)@, phase_name@),
    {
        let ghost old_v = self@;
        match position_of(&self.phrases, phase_name) {
            Some(i) => {
                let ghost before = self.phrases@;
                self.phrases[i].status = PHASE_FINISHED.to_owned();
                proof {
                    lemma_set_status_view(before, self.phrases@, i as int, "finished"@);
                }
            },
            None => {},
        }
        assert(self@ =~= marked_finished(old_v, phase_name@));
    }

    /// Advances to the next phase in sequence: the current phase becomes
    /// finished and the pointer moves to the following phase, which is
    /// returned; after the last phase the pointer is cleared and `None` is
    /// returned. Without a pointer nothing changes; a pointer that names no
    /// phase is an error, and nothing changes.
    pub fn advance_phase(&mut self) -> (r: Result<Option<&Phrase>, RoadmapError>)
        ensures
            advance_post(old(self)@, final(self)@, advance_result_view(r)),
    {
        let pos = match &self.current_phase {
            Some(name) => position_of(&self.phrases, name.as_str()),
            None => {
                return Ok(None);
            },
        };
        let i = match pos {
            Some(i) => i,
            None => {
                return Err(RoadmapError::MissingCurrentPhrase);
            },
        };
        let n = self.phrases.len();
        assert(i < n);
        let ghost before = self.phrases@;
        self.phrases[i].status = PHASE_FINISHED.to_owned();
        proof {
            lemma_set_status_view(before, self.phrases@, i as int, "finished"@);
        }
        if i + 1 < n {
            let next_name = self.phrases[i + 1].name.clone();
            self.current_phase = Some(next_name);
            return Ok(Some(&self.phrases[i + 1]));
        }
        self.current_phase = None;
        Ok(None)
    }

    /// Whether the phase named by the pointer exists and has not started.
    pub fn is_current_init(&self) -> (r: bool)
        ensures
            r == current_is_init(self@),
            r == (self@.current_phase matches Some(n) && exists|i: int|
                #[trigger] is_first_named(self@.phrases, n, i) && self@.phrases[i].status == "init"@),
    {
        match &self.current_phase {
            Some(name) => match position_of(&self.phrases, name.as_str()) {
                Some(i) => {
                    proof {
                        lemma_first_named_is(self@.phrases, name@, i as int);
                        assert forall|j: int| #[trigger] is_first_named(self@.phrases, name@, j) implies j
                            == i by {
                            lemma_first_named_is(self@.phrases, name@, j);
                        }
                    }
                    same_text(self.phrases[i].status.as_str(), PHASE_INIT)
                },
                None => {
                    proof {
                        assert forall|j: int| !#[trigger] is_first_named(self@.phrases, name@, j) by {
                            if is_first_named(self@.phrases, name@, j) {
                                lemma_first_named_is(self@.phrases, name@, j);
                            }
                        }
                    }
                    false
                },
            },
            None => false,
        }
    }

    /// Whether every phase has finished.
    pub fn is_all_phases_complete(&self) -> (r: bool)
        ensures
            r == all_finished(self@.phrases),
    {
        let mut i: usize = 0;
        while i < self.phrases.len()
            invariant
                i <= self.phrases@.len(),
                forall|j: int| 0 <= j < i ==> #[trigger] self@.phrases[j].status == "finished"@,
            decreases self.phrases@.len() - i,
        {
            if !same_text(self.phrases[i].status.as_str(), PHASE_FINISHED) {
                assert(self@.phrases[i as int].status != "finished"@);
                return false;
            }
            i = i + 1;
        }
        true
    }

    /// Replaces the phases by one fresh phase per (name, file) pair, in order,
    /// each `init` with no fixes; the documents become ready, the workflow
    /// `ready`, and the pointer names the first phase.
    pub fn init_phrases_from_files(&mut self, files: Vec<(String, String)>)
        ensures
            final(self)@ == planned(old(self)@, files@),
    {
        self.doc_ready = true;
        self.workflow = WORKFLOW_READY.to_owned();
        let mut phrases: Vec<Phrase> = Vec::new();
        let mut i: usize = 0;
        while i < files.len()
            invariant
                i <= files@.len(),
                phrases@.len() == i,
                forall|j: int|
                    0 <= j < i ==> (#[trigger] phrases@[j])@ == fresh_phrases(files@)[j],
            decreases files@.len() - i,
        {
            let (name, file) = &files[i];
            let p = Phrase {
                name: name.clone(),
                status: PHASE_INIT.to_owned(),
                file: file.clone(),
                fixes: Vec::new(),
            };
            assert(p@.fixes =~= Seq::<FixView>::empty());
            phrases.push(p);
            i = i + 1;
        }
        self.current_phase = if phrases.len() > 0 {
            Some(phrases[0].name.clone())
        } else {
            None
        };
        self.phrases = phrases;
        assert(self@.phrases =~= fresh_phrases(files@));
    }

    /// Checks that the workflow, every phase status and every fix status hold
    /// admitted values; reports the workflow first, then, going through the
    /// phases in order, the status of the first phase that is not admitted,
    /// or of its first fix that is not.
    pub fn validate(&self) -> (r: Result<(), RoadmapError>)
        ensures
            r is Ok <==> self@.is_valid(),
            r matches Err(e) ==> refusal(self@, e),
    {
        if !is_workflow_state(self.workflow.as_str()) {
            return Err(RoadmapError::InvalidWorkflow(self.workflow.clone()));
        }
        let ghost ps = self@.phrases;
        let ghost bad = |p: PhraseView| !phrase_ok(p);
        let mut i: usize = 0;
        while i < self.phrases.len()
            invariant
                valid_workflow(self@.workflow),
                ps == self@.phrases,
                bad == (|p: PhraseView| !phrase_ok(p)),
                i <= ps.len(),
                forall|j: int| 0 <= j < i ==> #[trigger] phrase_ok(ps[j]),
            decreases ps.len() - i,
        {
            let p = &self.phrases[i];
            assert(ps[i as int] == p@);
            if !is_phase_state(p.status.as_str()) {
                proof {
                    assert(bad(ps[i as int]));
                    lemma_first_where_is(ps, bad, i as int);
                }
                return Err(RoadmapError::InvalidPhraseStatus(p.status.clone()));
            }
            match first_bad_fix(&p.fixes) {
                Some(k) => {
                    proof {
                        assert(!fix_ok(p@.fixes[k as int]));
                        assert(bad(ps[i as int]));
                        lemma_first_where_is(ps, bad, i as int);
                    }
                    return Err(RoadmapError::InvalidFixStatus(p.fixes[k].status.clone()));
                },
                None => {
                    assert(phrase_ok(ps[i as int]));
                },
            }
            i = i + 1;
        }
        Ok(())
    }
}

/// The roadmap with the status of phase `i` replaced.
pub open spec fn status_changed(s: RoadmapView, i: int, st: Seq<char>) -> RoadmapView {
    RoadmapView { phrases: with_status(s.phrases, i, st), ..s }
}

/// Index `i` is the first whose element satisfies `p`.
pub open spec fn is_first_where<A>(s: Seq<A>, p: spec_fn(A) -> bool, i: int) -> bool {
    &&& 0 <= i < s.len()
    &&& p(s[i])
    &&& forall|j: int| 0 <= j < i ==> !p(#[trigger] s[j])
}

/// The index of the first element that satisfies `p`, if any.
pub open spec fn first_where<A>(s: Seq<A>, p: spec_fn(A) -> bool) -> Option<int> {
    if exists|i: int| is_first_where(s, p, i) {
        Some(choose|i: int| is_first_where(s, p, i))
    } else {
        None
    }
}

/// The first index that satisfies `p` is the one that `first_where` gives.
pub proof fn lemma_first_where_is<A>(s: Seq<A>, p: spec_fn(A) -> bool, i: int)
    requires
        is_first_where(s, p, i),
    ensures
        first_where(s, p) == Some(i),
{
    let k = choose|k: int| is_first_where(s, p, k);
    assert(is_first_where(s, p, k));
    if k < i {
        assert(!p(s[k]));
    } else if k > i {
        assert(!p(s[i]));
    }
}

/// The phase that the pointer names, if the pointer is set and names one.
pub open spec fn pointed_phase(s: RoadmapView) -> Option<int> {
    match s.current_phase {
        Some(n) => first_named(s.phrases, n),
        None => None,
    }
}

/// The phase named by the pointer exists and its status is `init`.
pub open spec fn current_is_init(s: RoadmapView) -> bool {
    match s.current_phase {
        Some(n) => match first_named(s.phrases, n) {
            Some(i) => s.phrases[i].status == "init"@,
            None => false,
        },
        None => false,
    }
}

/// The name that the pointer holds, or the empty name without a pointer.
pub open spec fn pointer_name(s: RoadmapView) -> Seq<char> {
    match s.current_phase {
        Some(n) => n,
        None => Seq::empty(),
    }
}

/// The roadmap with the pointer set to the name of phase `i`.
pub open spec fn pointed_at(s: RoadmapView, i: int) -> RoadmapView {
    RoadmapView { current_phase: Some(s.phrases[i].name), ..s }
}

/// The roadmap once work starts on the named phase: workflow `dev`, the
/// pointer on the name, the first phase of that name `dev`.
pub open spec fn dev_started(s: RoadmapView, name: Seq<char>) -> RoadmapView {
    RoadmapView {
        workflow: "dev"@,
        current_phase: Some(name),
        phrases: match first_named(s.phrases, name) {
            Some(i) => with_status(s.phrases, i, "dev"@),
            None => s.phrases,
        },
        ..s
    }
}

/// The roadmap with the first phase of the given name finished.
pub open spec fn marked_finished(s: RoadmapView, name: Seq<char>) -> RoadmapView {
    RoadmapView {
        phrases: match first_named(s.phrases, name) {
            Some(i) => with_status(s.phrases, i, "finished"@),
            None => s.phrases,
        },
        ..s
    }
}

/// The roadmap once a plan of (name, file) pairs is accepted.
pub open spec fn planned(s: RoadmapView, files: Seq<(String, String)>) -> RoadmapView {
    RoadmapView {
        doc_ready: true,
        workflow: "ready"@,
        phrases: fresh_phrases(files),
        current_phase: if files.len() > 0 {
            Some(files[0].0@)
        } else {
            None
        },
        ..s
    }
}

/// The phases that a list of (name, file) pairs starts: each `init`, without fixes.
pub open spec fn fresh_phrases(files: Seq<(String, String)>) -> Seq<PhraseView> {
    Seq::new(
        files.len(),
        |i: int|
            PhraseView {
                name: files[i].0@,
                status: "init"@,
                file: files[i].1@,
                fixes: Seq::empty(),
            },
    )
}

/// The error that refuses an invalid roadmap: its workflow when that is not
/// admitted; else, at the first phase that is not admitted, its status when
/// that is not admitted, or else the status of its first fix that is not.
pub open spec fn refusal(s: RoadmapView, e: RoadmapError) -> bool {
    if !valid_workflow(s.workflow) {
        e matches RoadmapError::InvalidWorkflow(w) && w@ == s.workflow
    } else {
        match first_where(s.phrases, |p: PhraseView| !phrase_ok(p)) {
            Some(i) => if !valid_phase_status(s.phrases[i].status) {
                e matches RoadmapError::InvalidPhraseStatus(st) && st@ == s.phrases[i].status
            } else {
                match first_where(s.phrases[i].fixes, |f: FixView| !fix_ok(f)) {
                    Some(k) => e matches RoadmapError::InvalidFixStatus(st) && st@
                        == s.phrases[i].fixes[k].status,
                    None => false,
                }
            },
            None => false,
        }
    }
}

impl Default for RoadmapState {
    fn default() -> (r: Self)
        ensures
            r@.version == "1.0.0"@,
            r@.workflow == "init"@,
            r@.current_phase is None,
            !r@.doc_ready,
            r@.phrases.len() == 0,
            rfc3339_utc(r@.updated_at),
    {
        Self::new()
    }
}

} // verus!
