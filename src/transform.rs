//! Finding the simple command that a statement starts with, and the tokens in it.
use vstd::prelude::*;

use crate::ast::{
    AndOrList, Command, ComplexWord, ListableCommand, PipeableCommand, RedirectOrCmdWord,
    SimpleCommand, SimpleWord, TopLevelCommand, TopLevelWord, Word,
};
use crate::pattern::{matches_pattern, pattern_matches};
use crate::serializable::{cmd_word_token_text, Serializable};

verus! {

/// The text of the first token of `c` when that token is one plain literal.
pub open spec fn leading_literal(c: SimpleCommand) -> Option<Seq<char>> {
    if c.redirects_or_cmd_words@.len() > 0 {
        match c.redirects_or_cmd_words@[0] {
            RedirectOrCmdWord::CmdWord(
                TopLevelWord(ComplexWord::Single(Word::Simple(SimpleWord::Literal(l)))),
            ) => Some(l@),
            _ => None,
        }
    } else {
        None
    }
}

/// Whether `a` and `b` hold the same characters.
pub fn same_text(a: &str, b: &str) -> (r: bool)
    ensures
        r == (a@ == b@),
{
    let n = a.unicode_len();
    let m = b.unicode_len();
    if n != m {
        return false;
    }
    let mut i: usize = 0;
    while i < n
        invariant
            n == a@.len(),
            m == b@.len(),
            n == m,
            i <= n,
            a@.subrange(0, i as int) == b@.subrange(0, i as int),
        decreases n - i,
    {
        if a.get_char(i) != b.get_char(i) {
            assert(a@[i as int] != b@[i as int]);
            return false;
        }
        assert(a@.subrange(0, i + 1) == a@.subrange(0, i as int).push(a@[i as int]));
        assert(b@.subrange(0, i + 1) == b@.subrange(0, i as int).push(b@[i as int]));
        i = i + 1;
    }
    assert(a@.subrange(0, n as int) == a@);
    assert(b@.subrange(0, n as int) == b@);
    true
}

/// Reaching the simple command that a node starts with.
///
/// The descent goes through a job or a list, takes the first element of an
/// and/or chain (its `&&` and `||` followers are not looked at), a single
/// command or the first stage of a pipeline, and stops at a simple command;
/// compound commands and function definitions are never entered.
pub trait ExtractCommand: Sized {
    /// The simple command where the descent ends, if it reaches one.
    spec fn target(&self) -> Option<SimpleCommand>;

    /// Whether `after` is this node with the command at its target replaced by `c`.
    spec fn replaced_by(&self, c: SimpleCommand, after: Self) -> bool;

    /// The simple command at the target, to be read.
    fn peek(&self) -> (r: Option<&SimpleCommand>)
        ensures
            r matches Some(c) ==> self.target() == Some(*c),
            r is None ==> self.target() is None,
    ;

    /// Whether the target is there and its first token is the literal `value`.
    fn leads_with(&self, value: &str) -> (r: bool)
        ensures
            r == (self.target() matches Some(c) && leading_literal(c) == Some(value@)),
    ;

    /// The simple command at the target when its first token is the literal
    /// `value`, as a handle through which it can be changed in place.
    fn extract(&mut self, value: &str) -> (r: Option<&mut SimpleCommand>)
        ensures
            r is Some <==> (old(self).target() matches Some(c) && leading_literal(c) == Some(value@)),
            r matches Some(c) ==> old(self).target() == Some(*c) && old(self).replaced_by(
                *final(c),
                *final(self),
            ),
            r is None ==> *final(self) == *old(self),
    ;
}

impl ExtractCommand for SimpleCommand {
    open spec fn target(&self) -> Option<SimpleCommand> {
        Some(*self)
    }

    open spec fn replaced_by(&self, c: SimpleCommand, after: Self) -> bool {
        after == c
    }

    fn peek(&self) -> (r: Option<&SimpleCommand>) {
        Some(self)
    }

    fn leads_with(&self, value: &str) -> (r: bool) {
        if self.redirects_or_cmd_words.len() == 0 {
            return false;
        }
        match &self.redirects_or_cmd_words[0] {
            RedirectOrCmdWord::CmdWord(
                TopLevelWord(ComplexWord::Single(Word::Simple(SimpleWord::Literal(l)))),
            ) => {
                assert(leading_literal(*self) == Some(l@));
                same_text(l.as_str(), value)
            },
            _ => {
                assert(leading_literal(*self) is None);
                false
            },
        }
    }

    fn extract(&mut self, value: &str) -> (r: Option<&mut SimpleCommand>) {
        if self.leads_with(value) {
            Some(self)
        } else {
            None
        }
    }
}

/// The simple command that a pipeline stage is, if it is one.
pub open spec fn stage_target(p: PipeableCommand) -> Option<SimpleCommand> {
    match p {
        PipeableCommand::Simple(c) => Some(c),
        _ => None,
    }
}

/// Whether `after` is the stage `p`, a simple command, replaced by `c`.
pub open spec fn stage_replaced(p: PipeableCommand, c: SimpleCommand, after: PipeableCommand) -> bool {
    p is Simple && after == PipeableCommand::Simple(c)
}

impl ExtractCommand for PipeableCommand {
    open spec fn target(&self) -> Option<SimpleCommand> {
        stage_target(*self)
    }

    open spec fn replaced_by(&self, c: SimpleCommand, after: Self) -> bool {
        stage_replaced(*self, c, after)
    }

    fn peek(&self) -> (r: Option<&SimpleCommand>) {
        match self {
            PipeableCommand::Simple(c) => Some(c),
            _ => None,
        }
    }

    fn leads_with(&self, value: &str) -> (r: bool) {
        match self {
            PipeableCommand::Simple(c) => c.leads_with(value),
            _ => false,
        }
    }

    fn extract(&mut self, value: &str) -> (r: Option<&mut SimpleCommand>) {
        if !self.leads_with(value) {
            return None;
        }
        match self {
            PipeableCommand::Simple(c) => c.extract(value),
            _ => None,
        }
    }
}

/// The first stage of a pipeline, as a handle.
fn first_stage(v: &mut Vec<PipeableCommand>) -> (r: &mut PipeableCommand)
    requires
        old(v)@.len() > 0,
    ensures
        *r == old(v)@[0],
        final(v)@ == old(v)@.update(0, *final(r)),
{
    &mut v[0]
}

/// The simple command that an and/or chain starts with.
pub open spec fn chain_target(l: AndOrList) -> Option<SimpleCommand> {
    match l.first {
        ListableCommand::Single(p) => stage_target(p),
        ListableCommand::Pipe(_, v) => if v@.len() > 0 {
            stage_target(v@[0])
        } else {
            None
        },
    }
}

/// Whether `after` is the chain `l` with the command it starts with replaced by `c`.
pub open spec fn chain_replaced(l: AndOrList, c: SimpleCommand, after: AndOrList) -> bool {
    &&& after.rest == l.rest
    &&& match l.first {
        ListableCommand::Single(p) => after.first matches ListableCommand::Single(q)
            && stage_replaced(p, c, q),
        ListableCommand::Pipe(bang, v) => after.first matches ListableCommand::Pipe(bang2, w)
            && bang2 == bang && v@.len() > 0 && w@.len() == v@.len() && stage_replaced(
            v@[0],
            c,
            w@[0],
        ) && forall|i: int| 1 <= i < w@.len() ==> w@[i] == v@[i],
    }
}

impl ExtractCommand for AndOrList {
    open spec fn target(&self) -> Option<SimpleCommand> {
        chain_target(*self)
    }

    open spec fn replaced_by(&self, c: SimpleCommand, after: Self) -> bool {
        chain_replaced(*self, c, after)
    }

    fn peek(&self) -> (r: Option<&SimpleCommand>) {
        match &self.first {
            ListableCommand::Single(p) => p.peek(),
            ListableCommand::Pipe(_, v) => if v.len() > 0 {
                v[0].peek()
            } else {
                None
            },
        }
    }

    fn leads_with(&self, value: &str) -> (r: bool) {
        match &self.first {
            ListableCommand::Single(p) => p.leads_with(value),
            ListableCommand::Pipe(_, v) => v.len() > 0 && v[0].leads_with(value),
        }
    }

    fn extract(&mut self, value: &str) -> (r: Option<&mut SimpleCommand>) {
        let leads = match &self.first {
            ListableCommand::Single(p) => p.leads_with(value),
            ListableCommand::Pipe(_, v) => v.len() > 0 && v[0].leads_with(value),
        };
        if !leads {
            return None;
        }
        match &mut self.first {
            ListableCommand::Single(p) => p.extract(value),
            ListableCommand::Pipe(_, v) => first_stage(v).extract(value),
        }
    }
}

/// The simple command that a statement starts with, as `extract` reaches it.
pub open spec fn statement_target(s: TopLevelCommand) -> Option<SimpleCommand> {
    match s.0 {
        Command::Job(l) => chain_target(l),
        Command::List(l) => chain_target(l),
    }
}

/// Whether `after` is the statement `s` with the command at its target replaced by `c`.
pub open spec fn statement_replaced(s: TopLevelCommand, c: SimpleCommand, after: TopLevelCommand) -> bool {
    match s.0 {
        Command::Job(l) => after.0 matches Command::Job(m) && chain_replaced(l, c, m),
        Command::List(l) => after.0 matches Command::List(m) && chain_replaced(l, c, m),
    }
}

impl ExtractCommand for TopLevelCommand {
    open spec fn target(&self) -> Option<SimpleCommand> {
        statement_target(*self)
    }

    open spec fn replaced_by(&self, c: SimpleCommand, after: Self) -> bool {
        statement_replaced(*self, c, after)
    }

    fn peek(&self) -> (r: Option<&SimpleCommand>) {
        match &self.0 {
            Command::Job(l) => l.peek(),
            Command::List(l) => l.peek(),
        }
    }

    fn leads_with(&self, value: &str) -> (r: bool) {
        match &self.0 {
            Command::Job(l) => l.leads_with(value),
            Command::List(l) => l.leads_with(value),
        }
    }

    fn extract(&mut self, value: &str) -> (r: Option<&mut SimpleCommand>) {
        match &mut self.0 {
            Command::Job(l) => l.extract(value),
            Command::List(l) => l.extract(value),
        }
    }
}

/// The index of the first of `toks` whose text the pattern `p` matches.
pub open spec fn first_match(toks: Seq<RedirectOrCmdWord>, p: Seq<char>) -> Option<int>
    decreases toks.len(),
{
    if toks.len() == 0 {
        None
    } else {
        match first_match(toks.subrange(0, toks.len() - 1), p) {
            Some(i) => Some(i),
            None => if pattern_matches(p, cmd_word_token_text(toks[toks.len() - 1])) {
                Some(toks.len() - 1)
            } else {
                None
            },
        }
    }
}

/// A match found in a prefix of the tokens is the first match of all of them.
pub proof fn lemma_first_match_prefix(toks: Seq<RedirectOrCmdWord>, p: Seq<char>, k: int)
    requires
        0 <= k <= toks.len(),
        first_match(toks.subrange(0, k), p) is Some,
    ensures
        first_match(toks, p) == first_match(toks.subrange(0, k), p),
    decreases toks.len(),
{
    if k < toks.len() {
        let shorter = toks.subrange(0, toks.len() - 1);
        assert(shorter.subrange(0, k) == toks.subrange(0, k));
        lemma_first_match_prefix(shorter, p, k);
    } else {
        assert(toks.subrange(0, k) == toks);
    }
}

/// A first match is the index of a token that the pattern matches.
pub proof fn lemma_first_match_bounds(toks: Seq<RedirectOrCmdWord>, p: Seq<char>)
    ensures
        first_match(toks, p) matches Some(i) ==> 0 <= i < toks.len() && pattern_matches(
            p,
            cmd_word_token_text(toks[i]),
        ),
    decreases toks.len(),
{
    if toks.len() > 0 {
        let shorter = toks.subrange(0, toks.len() - 1);
        lemma_first_match_bounds(shorter, p);
    }
}

/// Looking for a token of a simple command by pattern.
pub trait FindCommandWord {
    /// The index of the first token that `pattern` matches.
    spec fn found(&self, pattern: Seq<char>) -> Option<int>;

    /// The index of the first token, from the command word on, whose text the
    /// pattern matches as a whole.
    fn position(&self, pattern: &str) -> (r: Option<usize>)
        ensures
            r matches Some(i) ==> self.found(pattern@) == Some(i as int),
            r is None ==> self.found(pattern@) is None,
    ;
}

impl FindCommandWord for SimpleCommand {
    open spec fn found(&self, pattern: Seq<char>) -> Option<int> {
        first_match(self.redirects_or_cmd_words@, pattern)
    }

    fn position(&self, pattern: &str) -> (r: Option<usize>) {
        let toks = &self.redirects_or_cmd_words;
        let mut i: usize = 0;
        while i < toks.len()
            invariant
                toks@ == self.redirects_or_cmd_words@,
                i <= toks.len(),
                first_match(toks@.subrange(0, i as int), pattern@) is None,
            decreases toks.len() - i,
        {
            assert(toks@.subrange(0, i + 1).subrange(0, i as int) == toks@.subrange(0, i as int));
            let t = toks[i].into_string();
            if matches_pattern(pattern, t.as_str()) {
                proof {
                    lemma_first_match_prefix(toks@, pattern@, i + 1);
                }
                return Some(i);
            }
            i = i + 1;
        }
        assert(toks@.subrange(0, toks.len() as int) == toks@);
        None
    }
}

} // verus!
