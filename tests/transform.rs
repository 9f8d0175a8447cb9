use unspack::ast::{
    command_word, AndOrList, Command, CompoundCommand, CompoundCommandKind, ListableCommand,
    PipeableCommand, RedirectOrCmdWord, SimpleCommand, TopLevelCommand,
};
use unspack::pattern::matches_pattern;
use unspack::transform::{ExtractCommand, FindCommandWord};

fn simple(words: &[&str]) -> SimpleCommand {
    SimpleCommand {
        redirects_or_env_vars: vec![],
        redirects_or_cmd_words: words.iter().map(|w| command_word(String::from(*w))).collect(),
    }
}

fn statement(p: PipeableCommand) -> TopLevelCommand {
    TopLevelCommand(Command::List(AndOrList { first: ListableCommand::Single(p), rest: vec![] }))
}

#[test]
fn patterns() {
    assert!(matches_pattern(".*setup-env.sh", "/opt/spack/share/spack/setup-env.sh"));
    assert!(matches_pattern(".*setup-env.sh", "setup-env.sh"));
    assert!(!matches_pattern(".*setup-env.sh", "/x/setup-env.sh.bak"));
    assert!(matches_pattern("load", "load"));
    assert!(!matches_pattern("load", "download"));
    assert!(!matches_pattern("--list", "--lis"));
    assert!(matches_pattern("a*b", "aaab"));
    assert!(matches_pattern("a*b", "b"));
    assert!(matches_pattern("", ""));
    assert!(!matches_pattern("", "x"));
}

#[test]
fn position_finds_first_matching_token() {
    let c = simple(&["spack", "load", "foo", "load"]);
    assert_eq!(c.position("load"), Some(1));
    assert_eq!(c.position("spack"), Some(0));
    assert_eq!(c.position("f.o"), Some(2));
    assert_eq!(c.position("--list"), None);
}

#[test]
fn extract_through_wrappers() {
    let mut s = statement(PipeableCommand::Simple(simple(&["spack", "load", "x"])));
    assert!(s.leads_with("spack"));
    assert!(!s.leads_with("spac"));
    {
        let c = s.extract("spack").unwrap();
        c.redirects_or_cmd_words = vec![command_word(String::from("k"))];
    }
    assert_eq!(s, statement(PipeableCommand::Simple(simple(&["k"]))));
    assert!(s.extract("spack").is_none());
}

#[test]
fn extract_never_enters_compound_commands() {
    let inner = TopLevelCommand(Command::List(AndOrList {
        first: ListableCommand::Single(PipeableCommand::Simple(simple(&["spack", "load", "x"]))),
        rest: vec![],
    }));
    let mut s = statement(PipeableCommand::Compound(CompoundCommand {
        kind: CompoundCommandKind::Brace(vec![inner]),
        io: vec![],
    }));
    assert!(s.extract("spack").is_none());
    assert!(s.peek().is_none());
    let mut empty_pipe = TopLevelCommand(Command::Job(AndOrList {
        first: ListableCommand::Pipe(false, vec![]),
        rest: vec![],
    }));
    assert!(empty_pipe.extract("spack").is_none());
    let mut redirect_first = simple(&["x"]);
    redirect_first.redirects_or_cmd_words.insert(
        0,
        RedirectOrCmdWord::Redirect(unspack::ast::Redirect::Read(None, match command_word(String::from("f")) {
            RedirectOrCmdWord::CmdWord(w) => w,
            _ => unreachable!(),
        })),
    );
    assert!(redirect_first.extract("x").is_none());
}
