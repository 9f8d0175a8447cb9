//! The rewrite pass: one forward pass over the parsed statements of a script.
//!
//! A statement that sources the environment manager's setup script is taken
//! out of the body and kept as the bootstrap statement. A call of the tool
//! that carries the list flag is dropped. Any other call of the tool becomes
//! a call of its cache entry: the command, without its assignment prefix, is
//! fingerprinted, entered in the cache table once per fingerprint, and its
//! words are replaced by the single word naming the entry. Statements that
//! failed to parse are left out and counted.
use vstd::prelude::*;

use crate::ast::{
    command_word, ComplexWord, RedirectOrCmdWord, SimpleCommand, SimpleWord, TopLevelCommand,
    TopLevelWord, Word,
};
use crate::fingerprint::{fingerprint, fingerprint_of};
use crate::serializable::{cmd_words_text, Serializable};
use crate::transform::{
    first_match, leading_literal, statement_replaced, statement_target, ExtractCommand,
    FindCommandWord,
};

verus! {

/// One entry of the cache table: its key and the command it runs, without
/// assignment prefix.
pub struct CacheEntry {
    pub key: String,
    pub command: SimpleCommand,
}

impl CacheEntry {
    /// Whether the command of the entry has no assignment prefix.
    pub open spec fn normalized(self) -> bool {
        self.command.redirects_or_env_vars@.len() == 0
    }
}

/// What the pass produces.
pub struct Rewrite {
    /// The statements that stay, in their order, with the tool calls rewritten.
    pub body: Vec<TopLevelCommand>,
    /// The cache table, in the order in which the keys were first met.
    pub entries: Vec<CacheEntry>,
    /// The last statement that sourced the setup script, if any.
    pub bootstrap: Option<SimpleCommand>,
    /// How many statements failed to parse and were left out.
    pub dropped: usize,
}

/// Whether the statement starts with the dot-source operator.
pub open spec fn is_dot(s: TopLevelCommand) -> bool {
    statement_target(s) matches Some(c) && leading_literal(c) == Some("."@)
}

/// Whether the statement sources the setup script.
pub open spec fn is_bootstrap(s: TopLevelCommand) -> bool {
    is_dot(s) && first_match(statement_target(s)->0.redirects_or_cmd_words@, ".*setup-env.sh"@) is Some
}

/// Whether the statement is a call of the tool.
pub open spec fn is_tool_call(s: TopLevelCommand) -> bool {
    !is_dot(s) && (statement_target(s) matches Some(c) && leading_literal(c) == Some("spack"@))
}

/// Whether the statement is a call of the tool with the list flag.
pub open spec fn is_excluded(s: TopLevelCommand) -> bool {
    is_tool_call(s) && first_match(statement_target(s)->0.redirects_or_cmd_words@, "--list"@) is Some
}

/// Whether the statement is a call of the tool that goes to the cache.
pub open spec fn is_cacheable(s: TopLevelCommand) -> bool {
    is_tool_call(s) && !is_excluded(s)
}

/// Whether the statement stays in the body.
pub open spec fn is_kept(s: TopLevelCommand) -> bool {
    !is_bootstrap(s) && !is_excluded(s)
}

/// The text of a command once its assignment prefix is dropped.
pub open spec fn normalized_text(c: SimpleCommand) -> Seq<char> {
    cmd_words_text(c.redirects_or_cmd_words@, " "@)
}

/// The cache key of a call.
pub open spec fn call_key(c: SimpleCommand) -> Seq<char> {
    fingerprint_of(normalized_text(c))
}

/// Whether the token is the single literal `key`.
pub open spec fn is_reference(t: RedirectOrCmdWord, key: Seq<char>) -> bool {
    t matches RedirectOrCmdWord::CmdWord(
        TopLevelWord(ComplexWord::Single(Word::Simple(SimpleWord::Literal(l)))),
    ) && l@ == key
}

/// Whether `out` is what the pass makes of the kept statement `src`: a
/// cached call keeps its assignment prefix and has its words replaced by the
/// reference to its entry; any other statement is unchanged.
pub open spec fn rewritten(src: TopLevelCommand, out: TopLevelCommand) -> bool {
    if is_cacheable(src) {
        let c = statement_target(src)->0;
        &&& statement_target(out) matches Some(x)
        &&& statement_replaced(src, x, out)
        &&& x.redirects_or_env_vars == c.redirects_or_env_vars
        &&& x.redirects_or_cmd_words@.len() == 1
        &&& is_reference(x.redirects_or_cmd_words@[0], call_key(c))
    } else {
        out == src
    }
}

/// The positions of the statements that stay in the body.
pub open spec fn kept_indices(stmts: Seq<Option<TopLevelCommand>>) -> Seq<int>
    decreases stmts.len(),
{
    if stmts.len() == 0 {
        Seq::empty()
    } else {
        let prev = kept_indices(stmts.subrange(0, stmts.len() - 1));
        match stmts[stmts.len() - 1] {
            Some(s) => if is_kept(s) {
                prev.push(stmts.len() - 1)
            } else {
                prev
            },
            None => prev,
        }
    }
}

/// Whether the table holds the key.
pub open spec fn has_key(table: Seq<(Seq<char>, Seq<RedirectOrCmdWord>)>, key: Seq<char>) -> bool {
    exists|k: int| 0 <= k < table.len() && (#[trigger] table[k]).0 == key
}

/// The cache table: for each key in the order it was first met, the key and
/// the words of the first call that had it.
pub open spec fn cache_table(stmts: Seq<Option<TopLevelCommand>>) -> Seq<(Seq<char>, Seq<RedirectOrCmdWord>)>
    decreases stmts.len(),
{
    if stmts.len() == 0 {
        Seq::empty()
    } else {
        let prev = cache_table(stmts.subrange(0, stmts.len() - 1));
        match stmts[stmts.len() - 1] {
            Some(s) => if is_cacheable(s) && !has_key(prev, call_key(statement_target(s)->0)) {
                prev.push((call_key(statement_target(s)->0), statement_target(s)->0.redirects_or_cmd_words@))
            } else {
                prev
            },
            None => prev,
        }
    }
}

/// The command of the last statement that sourced the setup script.
pub open spec fn bootstrap_of(stmts: Seq<Option<TopLevelCommand>>) -> Option<SimpleCommand>
    decreases stmts.len(),
{
    if stmts.len() == 0 {
        None
    } else {
        match stmts[stmts.len() - 1] {
            Some(s) => if is_bootstrap(s) {
                statement_target(s)
            } else {
                bootstrap_of(stmts.subrange(0, stmts.len() - 1))
            },
            None => bootstrap_of(stmts.subrange(0, stmts.len() - 1)),
        }
    }
}

/// How many statements failed to parse.
pub open spec fn parse_failures(stmts: Seq<Option<TopLevelCommand>>) -> nat
    decreases stmts.len(),
{
    if stmts.len() == 0 {
        0
    } else {
        parse_failures(stmts.subrange(0, stmts.len() - 1)) + if stmts[stmts.len() - 1] is None {
            1nat
        } else {
            0nat
        }
    }
}

/// Whether `r` is what the pass makes of the statements `stmts`.
pub open spec fn rewrite_of(stmts: Seq<Option<TopLevelCommand>>, r: Rewrite) -> bool {
    let kept = kept_indices(stmts);
    let table = cache_table(stmts);
    &&& r.body@.len() == kept.len()
    &&& forall|j: int| 0 <= j < kept.len() ==> rewritten(stmts[kept[j]]->0, #[trigger] r.body@[j])
    &&& r.entries@.len() == table.len()
    &&& forall|k: int|
        0 <= k < table.len() ==> {
            &&& (#[trigger] r.entries@[k]).key@ == table[k].0
            &&& r.entries@[k].normalized()
            &&& r.entries@[k].command.redirects_or_cmd_words@ == table[k].1
        }
    &&& r.bootstrap == bootstrap_of(stmts)
    &&& r.dropped == parse_failures(stmts)
}

/// Calls whose texts, once their assignment prefixes are dropped, are the
/// same have the same cache key.
pub proof fn lemma_same_text_same_key(a: SimpleCommand, b: SimpleCommand)
    requires
        normalized_text(a) == normalized_text(b),
    ensures
        call_key(a) == call_key(b),
{
}

/// The cache table is keyed by the text of its words and holds one entry per
/// key, so no two of its entries have the same normalized text; and every
/// cached call has its key in it.
pub proof fn lemma_cache_table_unique(stmts: Seq<Option<TopLevelCommand>>)
    ensures
        forall|k: int|
            0 <= k < cache_table(stmts).len() ==> (#[trigger] cache_table(stmts)[k]).0
                == fingerprint_of(cmd_words_text(cache_table(stmts)[k].1, " "@)),
        forall|k: int, l: int|
            0 <= k < l < cache_table(stmts).len() ==> (#[trigger] cache_table(stmts)[k]).0
                != (#[trigger] cache_table(stmts)[l]).0,
        forall|k: int, l: int|
            0 <= k < l < cache_table(stmts).len() ==> cmd_words_text(
                (#[trigger] cache_table(stmts)[k]).1,
                " "@,
            ) != cmd_words_text((#[trigger] cache_table(stmts)[l]).1, " "@),
        forall|i: int|
            0 <= i < stmts.len() && (#[trigger] stmts[i]) is Some && is_cacheable(stmts[i]->0)
                ==> has_key(cache_table(stmts), call_key(statement_target(stmts[i]->0)->0)),
    decreases stmts.len(),
{
    if stmts.len() > 0 {
        let prev = stmts.subrange(0, stmts.len() - 1);
        lemma_cache_table_unique(prev);
        let t = cache_table(prev);
        let table = cache_table(stmts);
        assert forall|i: int|
            0 <= i < stmts.len() && (#[trigger] stmts[i]) is Some && is_cacheable(
                stmts[i]->0,
            ) implies has_key(table, call_key(statement_target(stmts[i]->0)->0)) by {
            let key = call_key(statement_target(stmts[i]->0)->0);
            if i < stmts.len() - 1 {
                assert(prev[i] == stmts[i]);
                let k = choose|k: int| 0 <= k < t.len() && (#[trigger] t[k]).0 == key;
                assert(table[k] == t[k]);
            } else if !has_key(t, key) {
                assert(table[t.len() as int].0 == key);
            } else {
                let k = choose|k: int| 0 <= k < t.len() && (#[trigger] t[k]).0 == key;
                assert(table[k] == t[k]);
            }
        }
    }
}

/// A call with the list flag never gets into the cache table.
pub proof fn lemma_list_never_cached(stmts: Seq<Option<TopLevelCommand>>)
    ensures
        forall|k: int|
            0 <= k < cache_table(stmts).len() ==> first_match(
                (#[trigger] cache_table(stmts)[k]).1,
                "--list"@,
            ) is None,
    decreases stmts.len(),
{
    if stmts.len() > 0 {
        lemma_list_never_cached(stmts.subrange(0, stmts.len() - 1));
    }
}

/// The positions of the statements that parsed and are not the bootstrap statement.
pub open spec fn parsed_indices(stmts: Seq<Option<TopLevelCommand>>) -> Seq<int>
    decreases stmts.len(),
{
    if stmts.len() == 0 {
        Seq::empty()
    } else {
        let prev = parsed_indices(stmts.subrange(0, stmts.len() - 1));
        match stmts[stmts.len() - 1] {
            Some(s) => if !is_bootstrap(s) {
                prev.push(stmts.len() - 1)
            } else {
                prev
            },
            None => prev,
        }
    }
}

/// Without calls of the tool, the cache table is empty and the body is the
/// statements that parsed, but for the bootstrap statement, unchanged and in
/// their order.
pub proof fn lemma_no_tool_calls(stmts: Seq<Option<TopLevelCommand>>, r: Rewrite)
    requires
        forall|i: int| 0 <= i < stmts.len() && (#[trigger] stmts[i]) is Some ==> !is_tool_call(stmts[i]->0),
        rewrite_of(stmts, r),
    ensures
        r.entries@.len() == 0,
        r.body@.len() == parsed_indices(stmts).len(),
        forall|j: int| 0 <= j < r.body@.len() ==> #[trigger] r.body@[j] == stmts[parsed_indices(stmts)[j]]->0,
{
    lemma_no_tool_calls_indices(stmts);
    lemma_kept_valid(stmts);
    assert forall|j: int| 0 <= j < r.body@.len() implies #[trigger] r.body@[j] == stmts[parsed_indices(stmts)[j]]->0 by {
        assert(rewritten(stmts[kept_indices(stmts)[j]]->0, r.body@[j]));
    }
}

proof fn lemma_no_tool_calls_indices(stmts: Seq<Option<TopLevelCommand>>)
    requires
        forall|i: int| 0 <= i < stmts.len() && (#[trigger] stmts[i]) is Some ==> !is_tool_call(stmts[i]->0),
    ensures
        cache_table(stmts).len() == 0,
        kept_indices(stmts) == parsed_indices(stmts),
    decreases stmts.len(),
{
    if stmts.len() > 0 {
        let prev = stmts.subrange(0, stmts.len() - 1);
        assert forall|i: int| 0 <= i < prev.len() && (#[trigger] prev[i]) is Some implies !is_tool_call(prev[i]->0) by {
            assert(prev[i] == stmts[i]);
        }
        lemma_no_tool_calls_indices(prev);
        assert(stmts[stmts.len() - 1] is Some ==> !is_tool_call(stmts[stmts.len() - 1]->0));
    }
}

/// The bootstrap statement is never part of the body: every statement that
/// stays parsed and is not one.
pub proof fn lemma_bootstrap_out_of_body(stmts: Seq<Option<TopLevelCommand>>)
    ensures
        forall|j: int|
            0 <= j < kept_indices(stmts).len() ==> {
                let k = #[trigger] kept_indices(stmts)[j];
                &&& stmts[k] is Some
                &&& !is_bootstrap(stmts[k]->0)
            },
        bootstrap_of(stmts) matches Some(c) ==> exists|i: int|
            0 <= i < stmts.len() && (#[trigger] stmts[i]) is Some && is_bootstrap(stmts[i]->0)
                && statement_target(stmts[i]->0) == Some(c),
    decreases stmts.len(),
{
    lemma_kept_valid(stmts);
    if stmts.len() > 0 {
        let prev = stmts.subrange(0, stmts.len() - 1);
        lemma_bootstrap_out_of_body(prev);
        if bootstrap_of(stmts) != bootstrap_of(prev) {
            assert(stmts[stmts.len() - 1] is Some);
        } else if bootstrap_of(prev) is Some {
            let i = choose|i: int|
                0 <= i < prev.len() && (#[trigger] prev[i]) is Some && is_bootstrap(prev[i]->0)
                    && statement_target(prev[i]->0) == bootstrap_of(prev);
            assert(stmts[i] == prev[i]);
        }
    }
}

/// Takes the statement at `i` out of `v`.
fn take_at(v: &mut Vec<Option<TopLevelCommand>>, i: usize) -> (r: Option<TopLevelCommand>)
    requires
        i < old(v)@.len(),
    ensures
        r == old(v)@[i as int],
        final(v)@ == old(v)@.update(i as int, None),
{
    let mut x: Option<TopLevelCommand> = None;
    std::mem::swap(&mut v[i], &mut x);
    x
}

/// Whether an entry of `entries` has the key `key`.
fn find_key(entries: &Vec<CacheEntry>, key: &String) -> (r: bool)
    ensures
        r == exists|k: int| 0 <= k < entries@.len() && (#[trigger] entries@[k]).key@ == key@,
{
    let mut i: usize = 0;
    while i < entries.len()
        invariant
            i <= entries.len(),
            forall|k: int| 0 <= k < i ==> (#[trigger] entries@[k]).key@ != key@,
        decreases entries.len() - i,
    {
        if entries[i].key == *key {
            return true;
        }
        i = i + 1;
    }
    false
}

/// Every kept position is a statement of `stmts` that stays in the body.
pub proof fn lemma_kept_valid(stmts: Seq<Option<TopLevelCommand>>)
    ensures
        forall|j: int|
            0 <= j < kept_indices(stmts).len() ==> {
                let k = #[trigger] kept_indices(stmts)[j];
                &&& 0 <= k < stmts.len()
                &&& stmts[k] is Some
                &&& is_kept(stmts[k]->0)
            },
    decreases stmts.len(),
{
    if stmts.len() > 0 {
        let prev = stmts.subrange(0, stmts.len() - 1);
        lemma_kept_valid(prev);
    }
}

/// Rewrites the parsed statements of a script; `None` stands for a statement
/// that failed to parse.
pub fn rewrite(statements: Vec<Option<TopLevelCommand>>) -> (r: Rewrite)
    requires
        statements@.len() < usize::MAX,
    ensures
        rewrite_of(statements@, r),
{
    let ghost input = statements@;
    let mut stmts = statements;
    let mut body: Vec<TopLevelCommand> = Vec::new();
    let mut entries: Vec<CacheEntry> = Vec::new();
    let mut bootstrap: Option<SimpleCommand> = None;
    let mut dropped: usize = 0;
    let mut i: usize = 0;
    while i < stmts.len()
        invariant
            stmts@.len() == input.len(),
            input.len() < usize::MAX,
            i <= input.len(),
            dropped <= i,
            forall|k: int| i <= k < input.len() ==> stmts@[k] == input[k],
            rewrite_of(
                input.subrange(0, i as int),
                Rewrite { body, entries, bootstrap, dropped },
            ),
        decreases input.len() - i,
    {
        let ghost prefix = input.subrange(0, i as int);
        let ghost next = input.subrange(0, i + 1);
        assert(next.subrange(0, i as int) == prefix);
        proof {
            lemma_kept_valid(prefix);
        }
        let ghost kept = kept_indices(prefix);
        let ghost table = cache_table(prefix);
        let ghost old_body = body@;
        let ghost old_entries = entries@;
        let item = take_at(&mut stmts, i);
        assert(item == next[i as int]);
        match item {
            None => {
                dropped = dropped + 1;
                assert(kept_indices(next) == kept);
                assert(cache_table(next) == table);
            },
            Some(stmt) => {
                let ghost src = stmt;
                let mut stmt = stmt;
                let mut keep = true;
                if stmt.leads_with(".") {
                    let boot = match stmt.peek() {
                        Some(c) => c.position(".*setup-env.sh").is_some(),
                        None => false,
                    };
                    if boot {
                        keep = false;
                        match stmt.extract(".") {
                            Some(c) => {
                                let mut captured = SimpleCommand {
                                    redirects_or_env_vars: Vec::new(),
                                    redirects_or_cmd_words: Vec::new(),
                                };
                                std::mem::swap(c, &mut captured);
                                bootstrap = Some(captured);
                            },
                            None => {},
                        }
                        assert(is_bootstrap(src));
                        assert(kept_indices(next) == kept);
                        assert(cache_table(next) == table);
                    } else {
                        assert(!is_bootstrap(src) && !is_tool_call(src));
                        assert(kept_indices(next) == kept.push(i as int));
                        assert(cache_table(next) == table);
                    }
                } else if stmt.leads_with("spack") {
                    let listing = match stmt.peek() {
                        Some(c) => c.position("--list").is_some(),
                        None => false,
                    };
                    if listing {
                        keep = false;
                        assert(is_excluded(src));
                        assert(kept_indices(next) == kept);
                        assert(cache_table(next) == table);
                    } else {
                        assert(is_cacheable(src));
                        match stmt.extract("spack") {
                            Some(c) => {
                                let ghost before = *c;
                                let mut words: Vec<RedirectOrCmdWord> = Vec::new();
                                std::mem::swap(&mut c.redirects_or_cmd_words, &mut words);
                                let normalized = SimpleCommand {
                                    redirects_or_env_vars: Vec::new(),
                                    redirects_or_cmd_words: words,
                                };
                                let text = normalized.into_string();
                                assert(text@ == normalized_text(before));
                                let key = fingerprint(text.as_str());
                                c.redirects_or_cmd_words.push(command_word(key.clone()));
                                let found = find_key(&entries, &key);
                                assert(found == has_key(table, key@)) by {
                                    if found {
                                        let k = choose|k: int|
                                            0 <= k < entries@.len() && (#[trigger] entries@[k]).key@
                                                == key@;
                                        assert(table[k].0 == key@);
                                    }
                                    if has_key(table, key@) {
                                        let k = choose|k: int|
                                            0 <= k < table.len() && (#[trigger] table[k]).0 == key@;
                                        assert(entries@[k].key@ == key@);
                                    }
                                }
                                if !found {
                                    entries.push(CacheEntry { key, command: normalized });
                                }
                            },
                            None => {},
                        }
                        assert(kept_indices(next) == kept.push(i as int));
                    }
                } else {
                    assert(!is_bootstrap(src) && !is_tool_call(src));
                    assert(kept_indices(next) == kept.push(i as int));
                    assert(cache_table(next) == table);
                }
                if keep {
                    body.push(stmt);
                }
            },
        }
        i = i + 1;
    }
    assert(input.subrange(0, input.len() as int) == input);
    Rewrite { body, entries, bootstrap, dropped }
}

} // verus!
