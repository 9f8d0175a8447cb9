//! The emitter: assembles the generated script.
//!
//! The output holds, in this order: the bootstrap statement, the helper that
//! fills the cache, one compile directive per cache entry, and the rewritten
//! body, which is captured as one value and evaluated last, once every entry
//! has been compiled.
use vstd::prelude::*;

use crate::ast::{command_word, RedirectOrCmdWord, SimpleCommand, TopLevelCommand};
use crate::rewrite::{rewrite, rewrite_of, CacheEntry, Rewrite};
use crate::serializable::{
    cmd_word_token_text, cmd_words_text, commands_string, commands_text, env_prefix_text,
    simple_command_text, Serializable,
};
use crate::transform::{first_match, lemma_first_match_bounds, FindCommandWord};

verus! {

/// The helper that fills the cache. Called as `HASH=<key> compile <command>`,
/// it runs the command, whose auxiliary `--sh` flag asks for the shell code
/// of its effect, and defines the function `<key>` with that code as its
/// body. When the command gives nothing, `<key>` runs the command without
/// the flag instead.
pub const HELPER: &'static str = "compile() {
    if __unspack_code=\"$(\"$@\")\" && [ -n \"$__unspack_code\" ]; then
        eval \"${HASH}() {
${__unspack_code}
}\"
    else
        __unspack_raw=\"\"
        for __unspack_arg in \"$@\"; do
            if [ \"$__unspack_arg\" != \"--sh\" ]; then
                __unspack_raw=\"${__unspack_raw} ${__unspack_arg}\"
            fi
        done
        eval \"${HASH}() {${__unspack_raw}; }\"
    fi
}
";

/// What opens the captured body.
pub const BODY_OPEN: &'static str = "__unspack_body=$(cat <<'__UNSPACK_BODY__'\n";

/// What closes the captured body and evaluates it.
pub const BODY_CLOSE: &'static str = "\n__UNSPACK_BODY__\n)\neval \"$__unspack_body\"\n";

/// The texts joined with `sep` between two neighbours.
pub open spec fn join_texts(s: Seq<Seq<char>>, sep: Seq<char>) -> Seq<char>
    decreases s.len(),
{
    if s.len() == 0 {
        Seq::empty()
    } else if s.len() == 1 {
        s[0]
    } else {
        join_texts(s.subrange(0, s.len() - 1), sep) + sep + s[s.len() - 1]
    }
}

/// The text of each token.
pub open spec fn token_texts(ws: Seq<RedirectOrCmdWord>) -> Seq<Seq<char>> {
    ws.map_values(|t: RedirectOrCmdWord| cmd_word_token_text(t))
}

/// The compile directive of a cache entry: its key, then its words with the
/// auxiliary flag `--sh` spliced in right after the first `load` token. An
/// entry without a `load` token has none.
pub open spec fn directive_text(key: Seq<char>, words: Seq<RedirectOrCmdWord>) -> Option<Seq<char>> {
    match first_match(words, "load"@) {
        Some(i) => Some(
            "HASH="@ + key + " compile "@ + join_texts(token_texts(words).insert(i + 1, "--sh"@), " "@)
                + "\n"@,
        ),
        None => None,
    }
}

/// The compile directives of a cache table, in its order.
pub open spec fn directives_text(table: Seq<(Seq<char>, Seq<RedirectOrCmdWord>)>) -> Seq<char>
    decreases table.len(),
{
    if table.len() == 0 {
        Seq::empty()
    } else {
        let last = table[table.len() - 1];
        directives_text(table.subrange(0, table.len() - 1)) + match directive_text(last.0, last.1) {
            Some(d) => d,
            None => Seq::empty(),
        }
    }
}

/// The keys and words of the entries.
pub open spec fn entry_table(entries: Seq<CacheEntry>) -> Seq<(Seq<char>, Seq<RedirectOrCmdWord>)> {
    entries.map_values(|e: CacheEntry| (e.key@, e.command.redirects_or_cmd_words@))
}

/// The bootstrap statement on a line of its own, if there is one.
pub open spec fn bootstrap_section(bootstrap: Option<SimpleCommand>) -> Seq<char> {
    match bootstrap {
        Some(c) => simple_command_text(c) + "\n"@,
        None => Seq::empty(),
    }
}

/// Everything that comes before the body.
pub open spec fn preamble_text(
    bootstrap: Option<SimpleCommand>,
    table: Seq<(Seq<char>, Seq<RedirectOrCmdWord>)>,
) -> Seq<char> {
    bootstrap_section(bootstrap) + HELPER@ + directives_text(table) + BODY_OPEN@
}

/// The generated script.
pub open spec fn script_text(
    bootstrap: Option<SimpleCommand>,
    table: Seq<(Seq<char>, Seq<RedirectOrCmdWord>)>,
    body: Seq<TopLevelCommand>,
) -> Seq<char> {
    preamble_text(bootstrap, table) + commands_text(body, "\n"@) + BODY_CLOSE@
}

/// The words of a command, joined by spaces, are the texts of its tokens joined.
pub proof fn lemma_words_join(ws: Seq<RedirectOrCmdWord>, sep: Seq<char>)
    ensures
        cmd_words_text(ws, sep) == join_texts(token_texts(ws), sep),
    decreases ws.len(),
{
    if ws.len() > 1 {
        let shorter = ws.subrange(0, ws.len() - 1);
        lemma_words_join(shorter, sep);
        assert(token_texts(ws).subrange(0, ws.len() - 1) == token_texts(shorter));
    }
}

/// Where the directive of entry `k` starts in the script.
pub open spec fn directive_offset(
    bootstrap: Option<SimpleCommand>,
    table: Seq<(Seq<char>, Seq<RedirectOrCmdWord>)>,
    k: int,
) -> int {
    (bootstrap_section(bootstrap).len() + HELPER@.len() + directives_text(table.subrange(0, k)).len()) as int
}

/// The directives of a prefix of the table are a prefix of the directives of
/// the table.
pub proof fn lemma_directives_prefix(table: Seq<(Seq<char>, Seq<RedirectOrCmdWord>)>, k: int)
    requires
        0 <= k <= table.len(),
    ensures
        directives_text(table.subrange(0, k)).len() <= directives_text(table).len(),
        directives_text(table).subrange(0, directives_text(table.subrange(0, k)).len() as int)
            == directives_text(table.subrange(0, k)),
    decreases table.len(),
{
    if k < table.len() {
        let shorter = table.subrange(0, table.len() - 1);
        assert(shorter.subrange(0, k) == table.subrange(0, k));
        lemma_directives_prefix(shorter, k);
        let d = directives_text(shorter);
        let p = directives_text(table.subrange(0, k));
        assert(directives_text(table).subrange(0, p.len() as int) == d.subrange(0, p.len() as int));
    } else {
        assert(table.subrange(0, k) == table);
    }
}

/// Every compile directive stands in the script before the body begins, so
/// each entry is compiled before any statement of the body can refer to it.
pub proof fn lemma_directives_precede_body(
    bootstrap: Option<SimpleCommand>,
    table: Seq<(Seq<char>, Seq<RedirectOrCmdWord>)>,
    body: Seq<TopLevelCommand>,
)
    ensures
        forall|k: int|
            0 <= k < table.len() && (#[trigger] directive_text(table[k].0, table[k].1)) is Some
                ==> {
                let d = directive_text(table[k].0, table[k].1)->0;
                let o = directive_offset(bootstrap, table, k);
                &&& script_text(bootstrap, table, body).subrange(o, o + d.len()) == d
                &&& o + d.len() <= preamble_text(bootstrap, table).len()
            },
        script_text(bootstrap, table, body).subrange(
            preamble_text(bootstrap, table).len() as int,
            (preamble_text(bootstrap, table).len() + commands_text(body, "\n"@).len()) as int,
        ) == commands_text(body, "\n"@),
{
    let script = script_text(bootstrap, table, body);
    let pre = preamble_text(bootstrap, table);
    let head = bootstrap_section(bootstrap) + HELPER@;
    let all = directives_text(table);
    assert forall|k: int|
        0 <= k < table.len() && (#[trigger] directive_text(table[k].0, table[k].1)) is Some implies {
        let d = directive_text(table[k].0, table[k].1)->0;
        let o = directive_offset(bootstrap, table, k);
        &&& script.subrange(o, o + d.len()) == d
        &&& o + d.len() <= pre.len()
    } by {
        let d = directive_text(table[k].0, table[k].1)->0;
        let before = directives_text(table.subrange(0, k));
        let upto = directives_text(table.subrange(0, k + 1));
        assert(table.subrange(0, k + 1).subrange(0, k) == table.subrange(0, k));
        assert(upto == before + d);
        lemma_directives_prefix(table, k + 1);
        assert(all.subrange(0, upto.len() as int) == upto);
        assert(upto.subrange(before.len() as int, upto.len() as int) == d);
        assert(script.subrange((head.len() + before.len()) as int, (head.len() + upto.len()) as int) == all.subrange(
            before.len() as int,
            upto.len() as int,
        ));
    }
    assert(script.subrange(pre.len() as int, (pre.len() + commands_text(body, "\n"@).len()) as int)
        == commands_text(body, "\n"@));
}

/// Writes the compile directive of an entry, splicing the flag into its command.
fn directive_string(entry: &mut CacheEntry) -> (r: Option<String>)
    requires
        old(entry).normalized(),
    ensures
        r matches Some(t) ==> directive_text(
            old(entry).key@,
            old(entry).command.redirects_or_cmd_words@,
        ) == Some(t@),
        r is None ==> directive_text(old(entry).key@, old(entry).command.redirects_or_cmd_words@) is None,
{
    let ghost words = entry.command.redirects_or_cmd_words@;
    match entry.command.position("load") {
        Some(i) => {
            proof {
                lemma_first_match_bounds(words, "load"@);
            }
            assert(first_match(words, "load"@) == Some(i as int));
            assert(i < entry.command.redirects_or_cmd_words.len());
            let flag = command_word(String::from_str("--sh"));
            assert(cmd_word_token_text(flag) == "--sh"@);
            entry.command.redirects_or_cmd_words.insert(i + 1, flag);
            let ghost spliced = entry.command.redirects_or_cmd_words@;
            assert(token_texts(spliced) == token_texts(words).insert(i + 1, "--sh"@));
            proof {
                lemma_words_join(spliced, " "@);
            }
            assert(env_prefix_text(entry.command.redirects_or_env_vars@, " "@) == Seq::<char>::empty());
            let text = entry.command.into_string();
            let mut line = String::from_str("HASH=");
            line.append(entry.key.as_str());
            line.append(" compile ");
            line.append(text.as_str());
            line.append("\n");
            Some(line)
        },
        None => None,
    }
}

/// Writes the generated script: the bootstrap statement, the helper, the
/// compile directives of the entries, then the body.
pub fn emit(
    bootstrap: &Option<SimpleCommand>,
    entries: Vec<CacheEntry>,
    body: &Vec<TopLevelCommand>,
) -> (r: String)
    requires
        forall|k: int| 0 <= k < entries@.len() ==> (#[trigger] entries@[k]).normalized(),
    ensures
        r@ == script_text(*bootstrap, entry_table(entries@), body@),
{
    let ghost table = entry_table(entries@);
    let mut out = String::new();
    match bootstrap {
        Some(c) => {
            let t = c.into_string();
            out.append(t.as_str());
            out.append("\n");
        },
        None => {},
    }
    out.append(HELPER);
    let mut entries = entries;
    let mut i: usize = 0;
    while i < entries.len()
        invariant
            entries@.len() == table.len(),
            i <= table.len(),
            forall|k: int|
                i <= k < table.len() ==> (#[trigger] entries@[k]).key@ == table[k].0
                    && entries@[k].command.redirects_or_cmd_words@ == table[k].1
                    && entries@[k].normalized(),
            out@ == bootstrap_section(*bootstrap) + HELPER@ + directives_text(
                table.subrange(0, i as int),
            ),
        decreases table.len() - i,
    {
        assert(table.subrange(0, i + 1).subrange(0, i as int) == table.subrange(0, i as int));
        let d = directive_string(&mut entries[i]);
        match d {
            Some(t) => {
                out.append(t.as_str());
            },
            None => {},
        }
        i = i + 1;
    }
    assert(table.subrange(0, table.len() as int) == table);
    out.append(BODY_OPEN);
    let b = commands_string(body, "\n");
    out.append(b.as_str());
    out.append(BODY_CLOSE);
    out
}

/// Rewrites the parsed statements of a script and writes the generated
/// script; `None` stands for a statement that failed to parse.
pub fn unspack(statements: Vec<Option<TopLevelCommand>>) -> (r: String)
    requires
        statements@.len() < usize::MAX,
    ensures
        exists|rw: Rewrite|
            #[trigger] rewrite_of(statements@, rw) && r@ == script_text(
                rw.bootstrap,
                entry_table(rw.entries@),
                rw.body@,
            ),
{
    let rw = rewrite(statements);
    let out = emit(&rw.bootstrap, rw.entries, &rw.body);
    out
}

} // verus!
