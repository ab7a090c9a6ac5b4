use vstd::prelude::*;

verus! {

/// A command for the registry's command loop.
pub enum Command<P> {
    /// Record this new process and have it launched.
    Spawn(P),
    /// Stop the command loop.
    Quit,
}

/// What the command loop does after handling a command.
#[derive(Debug, Clone, Copy, PartialEq, Eq, Structural)]
pub enum Directive {
    /// Launch the record at this index of the list, then wait for the next command.
    Launch(usize),
    /// Leave the command loop.
    Terminate,
}

/// The list and the open flag after one command.
pub open spec fn after_command<P>(list: Seq<P>, open: bool, cmd: Command<P>) -> (Seq<P>, bool) {
    if !open {
        (list, false)
    } else {
        match cmd {
            Command::Spawn(p) => (list.push(p), true),
            Command::Quit => (list, false),
        }
    }
}

/// The list and the open flag after a sequence of commands, first to last.
pub open spec fn after_commands<P>(list: Seq<P>, open: bool, cmds: Seq<Command<P>>) -> (Seq<P>, bool)
    decreases cmds.len(),
{
    if cmds.len() == 0 {
        (list, open)
    } else {
        let next = after_command(list, open, cmds[0]);
        after_commands(next.0, next.1, cmds.drop_first())
    }
}

/// The records of the spawn commands that come before the first quit, in order.
pub open spec fn spawned_before_quit<P>(cmds: Seq<Command<P>>) -> Seq<P>
    decreases cmds.len(),
{
    if cmds.len() == 0 {
        Seq::empty()
    } else {
        match cmds[0] {
            Command::Spawn(p) => seq![p] + spawned_before_quit(cmds.drop_first()),
            Command::Quit => Seq::empty(),
        }
    }
}

/// A closed registry ignores every command.
pub proof fn lemma_closed_registry_ignores_commands<P>(list: Seq<P>, cmds: Seq<Command<P>>)
    ensures
        after_commands(list, false, cmds) == (list, false),
    decreases cmds.len(),
{
    if cmds.len() > 0 {
        lemma_closed_registry_ignores_commands(list, cmds.drop_first());
    }
}

/// Commands are handled strictly in arrival order: an open registry ends up
/// with its records followed by those spawned before the first quit, in the
/// order their commands came, and nothing else.
pub proof fn lemma_records_in_spawn_order<P>(list: Seq<P>, cmds: Seq<Command<P>>)
    ensures
        after_commands(list, true, cmds).0 == list + spawned_before_quit(cmds),
    decreases cmds.len(),
{
    if cmds.len() == 0 {
        assert(list + Seq::<P>::empty() =~= list);
    } else {
        let rest = cmds.drop_first();
        match cmds[0] {
            Command::Spawn(p) => {
                lemma_records_in_spawn_order(list.push(p), rest);
                assert(list.push(p) + spawned_before_quit(rest) =~= list + (seq![p]
                    + spawned_before_quit(rest)));
            },
            Command::Quit => {
                lemma_closed_registry_ignores_commands(list, rest);
                assert(list + Seq::<P>::empty() =~= list);
            },
        }
    }
}

/// The ordered list of supervised records. Records are appended in the order
/// their spawn commands arrive and are never reordered or removed.
pub struct Registry<P> {
    processes: Vec<P>,
    open: bool,
}

impl<P> View for Registry<P> {
    type V = Seq<P>;

    closed spec fn view(&self) -> Seq<P> {
        self.processes@
    }
}

impl<P> Registry<P> {
    /// Whether the registry still takes commands; a quit closes it for good.
    pub closed spec fn is_open(&self) -> bool {
        self.open
    }

    pub fn new() -> (r: Registry<P>)
        ensures
            r@ == Seq::<P>::empty(),
            r.is_open(),
    {
        Registry { processes: Vec::new(), open: true }
    }

    pub fn len(&self) -> (r: usize)
        ensures
            r == self@.len(),
    {
        self.processes.len()
    }

    pub fn get(&self, i: usize) -> (r: &P)
        requires
            i < self@.len(),
        ensures
            *r == self@[i as int],
    {
        &self.processes[i]
    }

    pub fn accepting(&self) -> (r: bool)
        ensures
            r == self.is_open(),
    {
        self.open
    }

    /// Handles one command. While open, a spawn appends the record and asks
    /// for it to be launched, and a quit closes the registry; once closed,
    /// every command is ignored.
    pub fn handle(&mut self, cmd: Command<P>) -> (d: Directive)
        ensures
            (final(self)@, final(self).is_open()) == after_command(old(self)@, old(self).is_open(), cmd),
            d == (if old(self).is_open() && cmd is Spawn {
                Directive::Launch(old(self)@.len() as usize)
            } else {
                Directive::Terminate
            }),
    {
        if !self.open {
            return Directive::Terminate;
        }
        match cmd {
            Command::Spawn(p) => {
                let index = self.processes.len();
                self.processes.push(p);
                Directive::Launch(index)
            },
            Command::Quit => {
                self.open = false;
                Directive::Terminate
            },
        }
    }
}

} // verus!
