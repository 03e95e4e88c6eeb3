//! The run state of a domain: six independent flags and their listing code.

use vstd::prelude::*;
use vstd::string::StringExecFns;

verus! {

/// Whether a raw predicate of the backend reports its flag as set. The
/// backend answers each run-state question with an integer; any value but
/// zero means yes.
pub open spec fn flag_set(raw: u32) -> bool {
    raw != 0
}

/// The character a flag contributes to the listing code: its own letter when
/// set, a dash when not.
pub open spec fn flag_char(set: bool, letter: char) -> char {
    if set {
        letter
    } else {
        '-'
    }
}

/// The run state of a domain. The flags are independent: nothing here keeps
/// two of them from being set together.
#[derive(Clone, Copy, Debug, PartialEq, Eq, Structural)]
pub struct DomainState {
    pub running: bool,
    pub blocked: bool,
    pub paused: bool,
    pub shutdown: bool,
    pub crashed: bool,
    pub dying: bool,
}

impl DomainState {
    /// The state that six raw predicates of the backend stand for.
    pub open spec fn decoded(
        running: u32,
        blocked: u32,
        paused: u32,
        shutdown: u32,
        crashed: u32,
        dying: u32,
    ) -> DomainState {
        DomainState {
            running: flag_set(running),
            blocked: flag_set(blocked),
            paused: flag_set(paused),
            shutdown: flag_set(shutdown),
            crashed: flag_set(crashed),
            dying: flag_set(dying),
        }
    }

    /// The listing code: one character per flag, in the order dying,
    /// shutdown, blocked, crashed, paused, running.
    pub open spec fn code(self) -> Seq<char> {
        seq![
            flag_char(self.dying, 'd'),
            flag_char(self.shutdown, 's'),
            flag_char(self.blocked, 'b'),
            flag_char(self.crashed, 'c'),
            flag_char(self.paused, 'p'),
            flag_char(self.running, 'r'),
        ]
    }

    /// Decodes the six raw predicates of the backend, each by the same rule.
    pub fn decode(
        running: u32,
        blocked: u32,
        paused: u32,
        shutdown: u32,
        crashed: u32,
        dying: u32,
    ) -> (state: DomainState)
        ensures
            state == Self::decoded(running, blocked, paused, shutdown, crashed, dying),
    {
        DomainState {
            running: running != 0,
            blocked: blocked != 0,
            paused: paused != 0,
            shutdown: shutdown != 0,
            crashed: crashed != 0,
            dying: dying != 0,
        }
    }

    /// The listing code as a string, in the format of `xm list`.
    pub fn print(&self) -> (out: String)
        ensures
            out@ == self.code(),
    {
        proof {
            reveal_strlit("d");
            reveal_strlit("s");
            reveal_strlit("b");
            reveal_strlit("c");
            reveal_strlit("p");
            reveal_strlit("r");
            reveal_strlit("-");
        }
        let mut out = String::new();
        out.append(if self.dying { "d" } else { "-" });
        out.append(if self.shutdown { "s" } else { "-" });
        out.append(if self.blocked { "b" } else { "-" });
        out.append(if self.crashed { "c" } else { "-" });
        out.append(if self.paused { "p" } else { "-" });
        out.append(if self.running { "r" } else { "-" });
        assert(out@ =~= self.code());
        out
    }
}

/// The listing code always has six characters; each is the letter of its
/// flag exactly when that flag is set, and a dash otherwise.
pub proof fn lemma_code_shape(state: DomainState)
    ensures
        state.code().len() == 6,
        state.code()[0] == 'd' <==> state.dying,
        state.code()[1] == 's' <==> state.shutdown,
        state.code()[2] == 'b' <==> state.blocked,
        state.code()[3] == 'c' <==> state.crashed,
        state.code()[4] == 'p' <==> state.paused,
        state.code()[5] == 'r' <==> state.running,
        state.code()[0] == '-' <==> !state.dying,
        state.code()[1] == '-' <==> !state.shutdown,
        state.code()[2] == '-' <==> !state.blocked,
        state.code()[3] == '-' <==> !state.crashed,
        state.code()[4] == '-' <==> !state.paused,
        state.code()[5] == '-' <==> !state.running,
{
}

/// Two states with the same listing code are the same state: the code loses
/// nothing.
pub proof fn lemma_code_injective(a: DomainState, b: DomainState)
    requires
        a.code() == b.code(),
    ensures
        a == b,
{
    lemma_code_shape(a);
    lemma_code_shape(b);
}

} // verus!
