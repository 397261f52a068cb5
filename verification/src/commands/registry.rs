//! The table of commands, keyed by name.
use vstd::prelude::*;
use crate::commands::trait_def::DddCommand;
use crate::text::same_text;
use crate::commands::verify::VerifyCommand;
use crate::commands::audit::AuditCommand;
use crate::commands::final_verify::FinalVerifyCommand;
use crate::commands::confirm_phase::ConfirmCommand;
use crate::commands::archive::ArchiveCommand;
use crate::commands::report::ReportCommand;
use crate::commands::internal::AcceptCommand;
use crate::commands::init::InitCommand;
use crate::commands::prepare::PrepareCommand;
use crate::commands::exec::ExecCommand;
use crate::commands::sync::SyncCommand;

verus! {

/// The first entry whose name is `name`, if any.
pub open spec fn index_of_name(keys: Seq<Seq<char>>, name: Seq<char>) -> Option<int> {
    if exists|i: int| 0 <= i < keys.len() && keys[i] == name {
        Some(choose|i: int| 0 <= i < keys.len() && keys[i] == name)
    } else {
        None
    }
}

/// No name occurs twice.
pub open spec fn distinct_keys(keys: Seq<Seq<char>>) -> bool {
    forall|i: int, j: int| 0 <= i < keys.len() && 0 <= j < keys.len() && i != j ==> keys[i] != keys[j]
}

/// The commands registered so far, each under the name it reported, each
/// name at most once; registering a name again replaces its command.
pub struct CommandRegistry<C: DddCommand + ?Sized = dyn DddCommand> {
    keys: Vec<&'static str>,
    commands: Vec<Box<C>>,
}

impl<C: DddCommand + ?Sized> CommandRegistry<C> {
    /// The registered names, in order of first registration.
    pub closed spec fn names_view(&self) -> Seq<Seq<char>> {
        self.keys@.map_values(|k: &'static str| k@)
    }

    /// The registered commands, in the same order as their names.
    pub closed spec fn commands_view(&self) -> Seq<Box<C>> {
        self.commands@
    }

    /// The table is well formed: one command per name, no name twice, and
    /// each command under the name it reports. Every registry keeps it.
    #[verifier::type_invariant]
    pub closed spec fn wf(&self) -> bool {
        &&& self.keys@.len() == self.commands@.len()
        &&& distinct_keys(self.names_view())
        &&& forall|i: int|
            0 <= i < self.commands@.len() ==> (#[trigger] self.commands@[i]).spec_name()
                == self.names_view()[i]
    }

    /// A well-formed registry holds as many names as commands, no name twice,
    /// and each command under the name it reports.
    pub proof fn lemma_wf_facts(&self)
        requires
            self.wf(),
        ensures
            self.names_view().len() == self.commands_view().len(),
            distinct_keys(self.names_view()),
            forall|i: int|
                0 <= i < self.commands_view().len() ==> (#[trigger] self.commands_view()[i]).spec_name()
                    == self.names_view()[i],
    {
    }

    /// `new` is this registry with `cmd` registered under `name`: replacing
    /// the command of that name, or else adding the name last.
    pub closed spec fn registered(&self, new: Self, name: Seq<char>, cmd: Box<C>) -> bool {
        match index_of_name(self.names_view(), name) {
            Some(i) => new.names_view() == self.names_view() && new.commands_view()
                == self.commands_view().update(i, cmd),
            None => new.names_view() == self.names_view().push(name) && new.commands_view()
                == self.commands_view().push(cmd),
        }
    }

    /// After registering `cmd` under `name`, the name finds `cmd`; every
    /// other name finds what it found before, at the same place; and the
    /// registry grows by one entry exactly when the name was new.
    pub proof fn lemma_registered_then_found(old: Self, new: Self, name: Seq<char>, cmd: Box<C>)
        requires
            old.wf(),
            new.wf(),
            old.registered(new, name, cmd),
        ensures
            index_of_name(new.names_view(), name) matches Some(i) && new.commands_view()[i] == cmd,
            forall|m: Seq<char>|
                m != name ==> #[trigger] index_of_name(new.names_view(), m) == index_of_name(
                    old.names_view(),
                    m,
                ),
            forall|m: Seq<char>|
                m != name && #[trigger] index_of_name(old.names_view(), m) is Some
                    ==> new.commands_view()[index_of_name(old.names_view(), m)->0]
                    == old.commands_view()[index_of_name(old.names_view(), m)->0],
            index_of_name(old.names_view(), name) is None ==> new.names_view().len()
                == old.names_view().len() + 1,
            index_of_name(old.names_view(), name) is Some ==> new.names_view().len()
                == old.names_view().len(),
    {
        match index_of_name(old.names_view(), name) {
            Some(i) => {
                assert(new.names_view()[i] == name);
                let k = choose|k: int| 0 <= k < new.names_view().len() && new.names_view()[k] == name;
                if k != i {
                    assert(distinct_keys(new.names_view()));
                }
                assert forall|m: Seq<char>| m != name && #[trigger] index_of_name(old.names_view(), m) is Some
                    implies new.commands_view()[index_of_name(old.names_view(), m)->0]
                    == old.commands_view()[index_of_name(old.names_view(), m)->0] by {
                    let j = index_of_name(old.names_view(), m)->0;
                    assert(old.names_view()[j] == m);
                    assert(j != i);
                }
            },
            None => {
                let n = old.names_view().len() as int;
                assert(new.names_view()[n] == name);
                let k = choose|k: int| 0 <= k < new.names_view().len() && new.names_view()[k] == name;
                if k != n {
                    assert(distinct_keys(new.names_view()));
                }
                assert forall|m: Seq<char>| m != name implies #[trigger] index_of_name(
                    new.names_view(),
                    m,
                ) == index_of_name(old.names_view(), m) by {
                    let on = old.names_view();
                    let nn = new.names_view();
                    if exists|j: int| 0 <= j < on.len() && on[j] == m {
                        let j = choose|j: int| 0 <= j < on.len() && on[j] == m;
                        assert(nn[j] == m);
                        let kk = choose|kk: int| 0 <= kk < nn.len() && nn[kk] == m;
                        if kk != j {
                            assert(distinct_keys(nn));
                        }
                    } else {
                        if exists|j: int| 0 <= j < nn.len() && nn[j] == m {
                            let j = choose|j: int| 0 <= j < nn.len() && nn[j] == m;
                            if j < n {
                                assert(on[j] == m);
                            }
                        }
                    }
                }
                assert forall|m: Seq<char>| m != name && #[trigger] index_of_name(old.names_view(), m) is Some
                    implies new.commands_view()[index_of_name(old.names_view(), m)->0]
                    == old.commands_view()[index_of_name(old.names_view(), m)->0] by {
                    let j = index_of_name(old.names_view(), m)->0;
                    assert(j < n);
                }
            },
        }
    }

    /// A registry with no commands.
    pub fn empty() -> (r: Self)
        ensures
            r.wf(),
            r.names_view().len() == 0,
            r.commands_view().len() == 0,
    {
        let keys: Vec<&'static str> = Vec::new();
        let commands: Vec<Box<C>> = Vec::new();
        assert(keys@.map_values(|k: &'static str| k@) =~= Seq::<Seq<char>>::empty());
        CommandRegistry { keys, commands }
    }

    fn find(&self, name: &str) -> (r: Option<usize>)
        ensures
            match r {
                Some(k) => index_of_name(self.names_view(), name@) == Some(k as int) && k
                    < self.keys@.len(),
                None => index_of_name(self.names_view(), name@) is None,
            },
    {
        proof {
            use_type_invariant(self);
        }
        let mut i: usize = 0;
        while i < self.keys.len()
            invariant
                i <= self.keys@.len(),
                self.wf(),
                forall|j: int| 0 <= j < i ==> self.names_view()[j] != name@,
            decreases self.keys@.len() - i,
        {
            if same_text(self.keys[i], name) {
                proof {
                    let k = choose|k: int|
                        0 <= k < self.names_view().len() && self.names_view()[k] == name@;
                    assert(self.names_view()[i as int] == name@);
                    if k != i {
                        assert(distinct_keys(self.names_view()));
                    }
                    assert(index_of_name(self.names_view(), name@) == Some(i as int));
                }
                return Some(i);
            }
            i = i + 1;
        }
        None
    }

    /// The command registered under `name`, if any.
    pub fn get(&self, name: &str) -> (r: Option<&Box<C>>)
        ensures
            match index_of_name(self.names_view(), name@) {
                Some(i) => r matches Some(c) && *c == self.commands_view()[i],
                None => r is None,
            },
            r matches Some(c) ==> c.spec_name() == name@,
    {
        proof {
            use_type_invariant(self);
        }
        match self.find(name) {
            Some(i) => {
                let c = &self.commands[i];
                assert(*c == self.commands@[i as int]);
                Some(c)
            },
            None => None,
        }
    }

    /// Every registered command, in registration order.
    pub fn all(&self) -> (r: Vec<&Box<C>>)
        ensures
            r@.len() == self.commands_view().len(),
            forall|i: int| 0 <= i < r@.len() ==> *(#[trigger] r@[i]) == self.commands_view()[i],
    {
        proof {
            use_type_invariant(self);
        }
        let mut r: Vec<&Box<C>> = Vec::new();
        let mut i: usize = 0;
        while i < self.commands.len()
            invariant
                i <= self.commands@.len(),
                r@.len() == i,
                forall|j: int| 0 <= j < i ==> *(#[trigger] r@[j]) == self.commands@[j],
            decreases self.commands@.len() - i,
        {
            r.push(&self.commands[i]);
            i = i + 1;
        }
        r
    }

    /// The registered commands that report themselves callable from the
    /// command line, in registration order.
    pub fn cli_visible_commands(&self) -> (r: Vec<&Box<C>>)
        ensures
            r@.map_values(|c: &Box<C>| *c) == self.commands_view().filter(
                |c: Box<C>| c.spec_cli_visible(),
            ),
    {
        proof {
            use_type_invariant(self);
        }
        let ghost all = self.commands_view();
        let ghost pred = |c: Box<C>| c.spec_cli_visible();
        let mut r: Vec<&Box<C>> = Vec::new();
        let mut i: usize = 0;
        assert(all.take(0).filter(pred) =~= Seq::<Box<C>>::empty());
        assert(r@.map_values(|c: &Box<C>| *c) =~= Seq::<Box<C>>::empty());
        while i < self.commands.len()
            invariant
                all == self.commands_view(),
                pred == (|c: Box<C>| c.spec_cli_visible()),
                i <= self.commands@.len(),
                r@.map_values(|c: &Box<C>| *c) == all.take(i as int).filter(pred),
            decreases self.commands@.len() - i,
        {
            proof {
                assert(all.take(i + 1) =~= all.take(i as int).push(all[i as int]));
                all.take(i as int).lemma_filter_push(all[i as int], pred);
            }
            let c = &self.commands[i];
            let ghost before = r@.map_values(|c: &Box<C>| *c);
            if c.is_cli_visible() {
                r.push(c);
                assert(r@.map_values(|c: &Box<C>| *c) =~= before.push(*c));
            }
            i = i + 1;
        }
        assert(all.take(all.len() as int) =~= all);
        r
    }

    /// Every registered name, in registration order.
    pub fn names(&self) -> (r: Vec<&'static str>)
        ensures
            r@.map_values(|k: &'static str| k@) == self.names_view(),
    {
        proof {
            use_type_invariant(self);
        }
        let mut r: Vec<&'static str> = Vec::new();
        let mut i: usize = 0;
        while i < self.keys.len()
            invariant
                i <= self.keys@.len(),
                r@ == self.keys@.take(i as int),
            decreases self.keys@.len() - i,
        {
            r.push(self.keys[i]);
            proof {
                assert(self.keys@.take(i + 1) =~= self.keys@.take(i as int).push(self.keys@[i as int]));
            }
            i = i + 1;
        }
        assert(self.keys@.take(self.keys@.len() as int) =~= self.keys@);
        r
    }

    /// Registers `cmd` under `name`, the name it reports: replaces the
    /// command of that name if there is one, and otherwise adds the name last.
    fn register_as(&mut self, name: &'static str, cmd: Box<C>)
        requires
            name@ == cmd.spec_name(),
        ensures
            final(self).wf(),
            old(self).registered(*final(self), name@, cmd),
    {
        proof {
            use_type_invariant(&*self);
        }
        let found = self.find(name);
        let mut previous = CommandRegistry::empty();
        std::mem::swap(self, &mut previous);
        let ghost before = previous;
        proof {
            use_type_invariant(&previous);
        }
        let CommandRegistry { mut keys, mut commands } = previous;
        let ghost old_names = before.names_view();
        match found {
            Some(i) => {
                commands.set(i, cmd);
                proof {
                    assert(keys@.map_values(|k: &'static str| k@) == old_names);
                    assert(old_names[i as int] == name@);
                }
            },
            None => {
                keys.push(name);
                commands.push(cmd);
                proof {
                    let nv = keys@.map_values(|k: &'static str| k@);
                    assert(nv =~= old_names.push(name@));
                    assert(commands@[commands@.len() - 1] == cmd);
                    assert forall|i: int, j: int|
                        0 <= i < nv.len() && 0 <= j < nv.len() && i != j implies nv[i] != nv[j] by {
                        if i < old_names.len() && j < old_names.len() {
                        } else if i == old_names.len() {
                            assert(old_names[j] != name@);
                        } else {
                            assert(old_names[i] != name@);
                        }
                    }
                }
            },
        }
        *self = CommandRegistry { keys, commands };
    }

    /// Registers `cmd` under the name it reports, replacing any command
    /// already registered under that name.
    pub fn register(&mut self, cmd: Box<C>)
        ensures
            final(self).wf(),
            old(self).registered(*final(self), cmd.spec_name(), cmd),
    {
        let name = cmd.name();
        self.register_as(name, cmd);
    }
}

/// The names of the built-in commands, in the order in which they are
/// registered.
pub open spec fn builtin_names() -> Seq<Seq<char>> {
    seq![
        "init"@,
        "prepare"@,
        "exec"@,
        "ddd-verify"@,
        "audit"@,
        "final"@,
        "confirm"@,
        "archive"@,
        "report"@,
        "sync"@,
        "ddd-accept"@,
    ]
}

impl Default for CommandRegistry<dyn DddCommand> {
    /// The registry of the built-in commands, as `new` makes it.
    fn default() -> (r: Self)
        ensures
            r.wf(),
            r.names_view() == builtin_names(),
            r.commands_view().len() == builtin_names().len(),
            forall|i: int|
                0 <= i < r.commands_view().len() ==> (#[trigger] r.commands_view()[i]).spec_name()
                    == builtin_names()[i],
    {
        Self::new()
    }
}

impl CommandRegistry<dyn DddCommand> {
    /// The registry of the built-in commands: `init`, `prepare`, `exec`,
    /// `ddd-verify`, `audit`, `final`, `confirm`, `archive`, `report`, `sync`
    /// and `ddd-accept`, in this order, each under the name it reports.
    pub fn new() -> (r: Self)
        ensures
            r.wf(),
            r.names_view() == builtin_names(),
            r.commands_view().len() == builtin_names().len(),
            forall|i: int|
                0 <= i < r.commands_view().len() ==> (#[trigger] r.commands_view()[i]).spec_name()
                    == builtin_names()[i],
    {
        proof {
            reveal_strlit("init");
            reveal_strlit("prepare");
            reveal_strlit("exec");
            reveal_strlit("ddd-verify");
            reveal_strlit("audit");
            reveal_strlit("final");
            reveal_strlit("confirm");
            reveal_strlit("archive");
            reveal_strlit("report");
            reveal_strlit("sync");
            reveal_strlit("ddd-accept");
        }
        let mut reg: CommandRegistry<dyn DddCommand> = CommandRegistry::empty();
        reg.register(Box::new(InitCommand));
        assert(reg.names_view() =~= seq!["init"@]);
        proof {
            assert("prepare"@.len() != "init"@.len());
            assert(index_of_name(reg.names_view(), "prepare"@) is None);
        }
        reg.register(Box::new(PrepareCommand));
        assert(reg.names_view() =~= seq!["init"@, "prepare"@]);
        proof {
            assert("exec"@[0] != "init"@[0]);
            assert("exec"@.len() != "prepare"@.len());
            assert(index_of_name(reg.names_view(), "exec"@) is None);
        }
        reg.register(Box::new(ExecCommand));
        assert(reg.names_view() =~= seq!["init"@, "prepare"@, "exec"@]);
        proof {
            assert("ddd-verify"@.len() != "init"@.len());
            assert("ddd-verify"@.len() != "prepare"@.len());
            assert("ddd-verify"@.len() != "exec"@.len());
            assert(index_of_name(reg.names_view(), "ddd-verify"@) is None);
        }
        reg.register(Box::new(VerifyCommand));
        assert(reg.names_view() =~= seq!["init"@, "prepare"@, "exec"@, "ddd-verify"@]);
        proof {
            assert("audit"@.len() != "init"@.len());
            assert("audit"@.len() != "prepare"@.len());
            assert("audit"@.len() != "exec"@.len());
            assert("audit"@.len() != "ddd-verify"@.len());
            assert(index_of_name(reg.names_view(), "audit"@) is None);
        }
        reg.register(Box::new(AuditCommand));
        assert(reg.names_view() =~= seq!["init"@, "prepare"@, "exec"@, "ddd-verify"@, "audit"@]);
        proof {
            assert("final"@[0] != "audit"@[0]);
            assert("final"@.len() != "init"@.len());
            assert("final"@.len() != "prepare"@.len());
            assert("final"@.len() != "exec"@.len());
            assert("final"@.len() != "ddd-verify"@.len());
            assert(index_of_name(reg.names_view(), "final"@) is None);
        }
        reg.register(Box::new(FinalVerifyCommand));
        assert(reg.names_view() =~= seq!["init"@, "prepare"@, "exec"@, "ddd-verify"@, "audit"@, "final"@]);
        proof {
            assert("confirm"@[0] != "prepare"@[0]);
            assert("confirm"@.len() != "init"@.len());
            assert("confirm"@.len() != "exec"@.len());
            assert("confirm"@.len() != "ddd-verify"@.len());
            assert("confirm"@.len() != "audit"@.len());
            assert("confirm"@.len() != "final"@.len());
            assert(index_of_name(reg.names_view(), "confirm"@) is None);
        }
        reg.register(Box::new(ConfirmCommand));
        assert(reg.names_view() =~= seq!["init"@, "prepare"@, "exec"@, "ddd-verify"@, "audit"@, "final"@, "confirm"@]);
        proof {
            assert("archive"@[0] != "prepare"@[0]);
            assert("archive"@[0] != "confirm"@[0]);
            assert("archive"@.len() != "init"@.len());
            assert("archive"@.len() != "exec"@.len());
            assert("archive"@.len() != "ddd-verify"@.len());
            assert("archive"@.len() != "audit"@.len());
            assert("archive"@.len() != "final"@.len());
            assert(index_of_name(reg.names_view(), "archive"@) is None);
        }
        reg.register(Box::new(ArchiveCommand));
        assert(reg.names_view() =~= seq!["init"@, "prepare"@, "exec"@, "ddd-verify"@, "audit"@, "final"@, "confirm"@, "archive"@]);
        proof {
            assert("report"@.len() != "init"@.len());
            assert("report"@.len() != "prepare"@.len());
            assert("report"@.len() != "exec"@.len());
            assert("report"@.len() != "ddd-verify"@.len());
            assert("report"@.len() != "audit"@.len());
            assert("report"@.len() != "final"@.len());
            assert("report"@.len() != "confirm"@.len());
            assert("report"@.len() != "archive"@.len());
            assert(index_of_name(reg.names_view(), "report"@) is None);
        }
        reg.register(Box::new(ReportCommand));
        assert(reg.names_view() =~= seq!["init"@, "prepare"@, "exec"@, "ddd-verify"@, "audit"@, "final"@, "confirm"@, "archive"@, "report"@]);
        proof {
            assert("sync"@[0] != "init"@[0]);
            assert("sync"@[0] != "exec"@[0]);
            assert("sync"@.len() != "prepare"@.len());
            assert("sync"@.len() != "ddd-verify"@.len());
            assert("sync"@.len() != "audit"@.len());
            assert("sync"@.len() != "final"@.len());
            assert("sync"@.len() != "confirm"@.len());
            assert("sync"@.len() != "archive"@.len());
            assert("sync"@.len() != "report"@.len());
            assert(index_of_name(reg.names_view(), "sync"@) is None);
        }
        reg.register(Box::new(SyncCommand));
        assert(reg.names_view() =~= seq!["init"@, "prepare"@, "exec"@, "ddd-verify"@, "audit"@, "final"@, "confirm"@, "archive"@, "report"@, "sync"@]);
        proof {
            assert("ddd-accept"@[4] != "ddd-verify"@[4]);
            assert("ddd-accept"@.len() != "init"@.len());
            assert("ddd-accept"@.len() != "prepare"@.len());
            assert("ddd-accept"@.len() != "exec"@.len());
            assert("ddd-accept"@.len() != "audit"@.len());
            assert("ddd-accept"@.len() != "final"@.len());
            assert("ddd-accept"@.len() != "confirm"@.len());
            assert("ddd-accept"@.len() != "archive"@.len());
            assert("ddd-accept"@.len() != "report"@.len());
            assert("ddd-accept"@.len() != "sync"@.len());
            assert(index_of_name(reg.names_view(), "ddd-accept"@) is None);
        }
        reg.register(Box::new(AcceptCommand));
        assert(reg.names_view() =~= seq!["init"@, "prepare"@, "exec"@, "ddd-verify"@, "audit"@, "final"@, "confirm"@, "archive"@, "report"@, "sync"@, "ddd-accept"@]);
        proof {
            reg.lemma_wf_facts();
        }
        reg
    }
}

} // verus!
