use sha2::{Digest, Sha256};
use unspack::ast::{
    command_word, AndOr, AndOrList, Command, ComplexWord, ListableCommand, PipeableCommand,
    RedirectOrCmdWord, RedirectOrEnvVar, SimpleCommand, SimpleWord, TopLevelCommand, TopLevelWord,
    Word,
};
use unspack::emit::{emit, unspack, BODY_CLOSE, BODY_OPEN, HELPER};
use unspack::fingerprint::{fingerprint, key_for_digest};
use unspack::rewrite::rewrite;
use unspack::serializable::Serializable;

fn lit_word(s: &str) -> TopLevelWord {
    TopLevelWord(ComplexWord::Single(Word::Simple(SimpleWord::Literal(String::from(s)))))
}

fn simple(words: &[&str]) -> SimpleCommand {
    SimpleCommand {
        redirects_or_env_vars: vec![],
        redirects_or_cmd_words: words.iter().map(|w| command_word(String::from(*w))).collect(),
    }
}

fn statement(c: SimpleCommand) -> TopLevelCommand {
    TopLevelCommand(Command::List(AndOrList {
        first: ListableCommand::Single(PipeableCommand::Simple(c)),
        rest: vec![],
    }))
}

fn line(words: &[&str]) -> Option<TopLevelCommand> {
    Some(statement(simple(words)))
}

fn sha_hex(s: &str) -> String {
    format!("{:x}", Sha256::digest(s.as_bytes()))
}

fn key_of(text: &str) -> String {
    format!("load_{}", sha_hex(text))
}

const SETUP: &str = "/opt/spack/share/spack/setup-env.sh";

#[test]
fn fingerprint_is_prefixed_sha256() {
    let k = fingerprint("spack load foo@1.0");
    assert_eq!(k, key_of("spack load foo@1.0"));
    assert_eq!(k.len(), "load_".len() + 64);
    assert_ne!(k, "load_spack load foo@1.0");
    assert_eq!(key_for_digest("abc"), "load_abc");
}

#[test]
fn no_tool_calls_leave_the_body_alone() {
    let stmts = vec![line(&["echo", "hi"]), None, line(&["ls", "-l"])];
    let r = rewrite(stmts);
    assert!(r.entries.is_empty());
    assert!(r.bootstrap.is_none());
    assert_eq!(r.dropped, 1);
    assert_eq!(r.body.len(), 2);
    assert_eq!(r.body[0], statement(simple(&["echo", "hi"])));
    assert_eq!(r.body[1], statement(simple(&["ls", "-l"])));
}

#[test]
fn repeated_load_is_cached_once() {
    let stmts = vec![line(&["spack", "load", "foo@1.0"]), line(&["spack", "load", "foo@1.0"])];
    let r = rewrite(stmts);
    let key = key_of("spack load foo@1.0");
    assert_eq!(r.entries.len(), 1);
    assert_eq!(r.entries[0].key, key);
    assert_eq!(r.entries[0].command, simple(&["spack", "load", "foo@1.0"]));
    assert_eq!(r.body.len(), 2);
    assert_eq!(r.body[0], statement(simple(&[key.as_str()])));
    assert_eq!(r.body[1], statement(simple(&[key.as_str()])));
}

#[test]
fn list_flag_is_never_cached() {
    let stmts = vec![line(&["spack", "load", "--list"]), line(&["echo", "x"])];
    let r = rewrite(stmts);
    assert!(r.entries.is_empty());
    assert_eq!(r.body, vec![statement(simple(&["echo", "x"]))]);
}

#[test]
fn assignment_prefix_does_not_split_the_cache() {
    let with_env = SimpleCommand {
        redirects_or_env_vars: vec![RedirectOrEnvVar::EnvVar(String::from("A"), Some(lit_word("1")))],
        redirects_or_cmd_words: simple(&["spack", "load", "foo"]).redirects_or_cmd_words,
    };
    let stmts = vec![Some(statement(with_env)), line(&["spack", "load", "foo"]), line(&["spack", "load", "bar"])];
    let r = rewrite(stmts);
    assert_eq!(r.entries.len(), 2);
    assert_eq!(r.entries[0].key, key_of("spack load foo"));
    assert_eq!(r.entries[1].key, key_of("spack load bar"));
    assert_eq!(r.body[0].into_string(), format!("A=1 {}", key_of("spack load foo")));
    assert_eq!(r.body[1].into_string(), key_of("spack load foo"));
}

#[test]
fn bootstrap_is_taken_out_of_the_body() {
    let stmts = vec![line(&["echo", "a"]), line(&[".", SETUP]), line(&[".", "other.sh"])];
    let r = rewrite(stmts);
    assert_eq!(r.bootstrap, Some(simple(&[".", SETUP])));
    assert_eq!(r.body, vec![statement(simple(&["echo", "a"])), statement(simple(&[".", "other.sh"]))]);
    let out = emit(&r.bootstrap, r.entries, &r.body);
    assert!(out.starts_with(&format!(". {}\n{}", SETUP, HELPER)));
    assert_eq!(out.matches(SETUP).count(), 1);
}

#[test]
fn only_the_first_pipeline_stage_and_chain_member_are_looked_at() {
    let c = TopLevelCommand(Command::Job(AndOrList {
        first: ListableCommand::Pipe(
            false,
            vec![
                PipeableCommand::Simple(simple(&["spack", "load", "x"])),
                PipeableCommand::Simple(simple(&["cat"])),
            ],
        ),
        rest: vec![AndOr::And(ListableCommand::Single(PipeableCommand::Simple(simple(&[
            "spack", "load", "y",
        ]))))],
    }));
    let r = rewrite(vec![Some(c)]);
    assert_eq!(r.entries.len(), 1);
    assert_eq!(
        r.body[0].into_string(),
        format!("{} | cat && spack load y &", key_of("spack load x"))
    );
}

#[test]
fn directive_splices_flag_after_load() {
    let stmts = vec![line(&["spack", "load", "foo", "bar"]), line(&["spack", "find"])];
    let r = rewrite(stmts);
    assert_eq!(r.entries.len(), 2);
    let out = emit(&None, r.entries, &r.body);
    let directive = format!("HASH={} compile spack load --sh foo bar\n", key_of("spack load foo bar"));
    assert!(out.contains(&directive));
    assert!(!out.contains(&format!("HASH={}", key_of("spack find"))));
}

#[test]
fn directives_precede_body() {
    let stmts = vec![line(&["spack", "load", "a"]), line(&["spack", "load", "b"])];
    let out = unspack(stmts);
    let body_start = out.find(BODY_OPEN).unwrap();
    for name in ["a", "b"] {
        let key = key_of(&format!("spack load {}", name));
        let d = out.find(&format!("HASH={} compile", key)).unwrap();
        let first_use = out[body_start..].find(&key).unwrap() + body_start;
        assert!(d < body_start && d < first_use);
    }
}

#[test]
fn end_to_end_script() {
    let stmts = vec![
        line(&[".", SETUP]),
        line(&["spack", "load", "foo@1.0"]),
        line(&["spack", "load", "foo@1.0"]),
    ];
    let out = unspack(stmts);
    let key = key_of("spack load foo@1.0");
    let expected = format!(
        ". {}\n{}HASH={} compile spack load --sh foo@1.0\n{}{}\n{}{}",
        SETUP, HELPER, key, BODY_OPEN, key, key, BODY_CLOSE
    );
    assert_eq!(out, expected);
    assert_eq!(out.matches("compile spack").count(), 1);
}

#[test]
fn empty_script() {
    let out = unspack(vec![]);
    assert_eq!(out, format!("{}{}{}", HELPER, BODY_OPEN, BODY_CLOSE));
}

#[test]
fn reference_word_is_a_single_literal() {
    let w = command_word(String::from("load_x"));
    assert_eq!(w, RedirectOrCmdWord::CmdWord(lit_word("load_x")));
}
