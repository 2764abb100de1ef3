//! The binding surface's stateful side: one instantiated module together
//! with the log lines it has emitted to the host logging sink.
//!
//! The host's load hook is modelled as an explicit `initialize` call that
//! the embedding layer makes exactly once, immediately after creating the
//! module and before invoking any exported operation that logs: its
//! contract forbids a second call, and `greet` demands that it has run.

use vstd::prelude::*;
use vstd::string::StringExecFns;

verus! {

/// The log line emitted by the load hook.
pub open spec fn load_line() -> Seq<char> {
    "QuestMind module loaded!"@
}

/// The log line `greet` emits for the name `name`.
pub open spec fn greeting_line(name: Seq<char>) -> Seq<char> {
    "Hello, "@ + name + "! Greetings from QuestMind module."@
}

/// One instantiation of the binding surface, holding the log lines it has
/// emitted and not yet handed to the host logging sink.
pub struct Module {
    lines: Vec<String>,
    loaded: bool,
}

impl Module {
    /// The emitted lines that have not been flushed yet, oldest first.
    pub closed spec fn log(&self) -> Seq<Seq<char>> {
        self.lines@.map_values(|l: String| l@)
    }

    /// Whether the load hook (`initialize`) has already run.
    pub closed spec fn is_loaded(&self) -> bool {
        self.loaded
    }

    /// A fresh module: not yet initialized, with an empty log.
    pub fn new() -> (m: Module)
        ensures
            !m.is_loaded(),
            m.log() == Seq::<Seq<char>>::empty(),
    {
        let m = Module { lines: Vec::new(), loaded: false };
        proof {
            assert(m.log() =~= Seq::<Seq<char>>::empty());
        }
        m
    }

    /// Appends one line to the log.
    fn emit(&mut self, line: &str)
        ensures
            final(self).is_loaded() == old(self).is_loaded(),
            final(self).log() == old(self).log().push(line@),
    {
        self.lines.push(String::from_str(line));
        proof {
            assert(self.log() =~= old(self).log().push(line@));
        }
    }

    /// The load hook: emits exactly one log line, `QuestMind module
    /// loaded!`, and marks the module loaded. It runs at most once per
    /// module: a second call is ruled out by its precondition.
    pub fn initialize(&mut self)
        requires
            !old(self).is_loaded(),
        ensures
            final(self).is_loaded(),
            final(self).log() == old(self).log().push(load_line()),
    {
        self.emit("QuestMind module loaded!");
        self.loaded = true;
    }

    /// Whether the load hook has run.
    pub fn loaded(&self) -> (b: bool)
        ensures
            b == self.is_loaded(),
    {
        self.loaded
    }

    /// Empties the log and hands its lines, oldest first, to the caller,
    /// which forwards them to the host logging sink.
    pub fn flush(&mut self) -> (out: Vec<String>)
        ensures
            final(self).is_loaded() == old(self).is_loaded(),
            final(self).log() == Seq::<Seq<char>>::empty(),
            out@.map_values(|l: String| l@) == old(self).log(),
    {
        let mut out: Vec<String> = Vec::new();
        core::mem::swap(&mut out, &mut self.lines);
        proof {
            assert(self.log() =~= Seq::<Seq<char>>::empty());
        }
        out
    }
}

/// Emits exactly one log line, `Hello, {name}! Greetings from QuestMind
/// module.`, for any name, the empty one included. The module must have
/// been initialized: the load line precedes every greeting.
pub fn greet(m: &mut Module, name: &str)
    requires
        old(m).is_loaded(),
    ensures
        final(m).is_loaded(),
        final(m).log() == old(m).log().push(greeting_line(name@)),
{
    let mut line = String::from_str("Hello, ");
    line.append(name);
    line.append("! Greetings from QuestMind module.");
    proof {
        assert(line@ =~= greeting_line(name@));
    }
    m.emit(line.as_str());
}

/// A module's log right after instantiation holds exactly one line, the
/// load line: `new` ensures the first state below, `initialize` turns it
/// into the second.
pub proof fn lemma_load_logs_once(pre: Seq<Seq<char>>, post: Seq<Seq<char>>)
    requires
        pre == Seq::<Seq<char>>::empty(),
        post == pre.push(load_line()),
    ensures
        post.len() == 1,
        post[0] == load_line(),
{
}

} // verus!
