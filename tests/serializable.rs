use conch_parser::lexer::Lexer;
use conch_parser::parse::DefaultParser;
use unspack::ast::{
    AndOr, AndOrList, Arithmetic, Command, ComplexWord, CompoundCommand, CompoundCommandKind,
    GuardBodyPair, ListableCommand, Parameter, ParameterSubstitution, PatternBodyPair,
    PipeableCommand, Redirect, RedirectOrCmdWord, RedirectOrEnvVar, SimpleCommand, SimpleWord,
    TopLevelCommand, TopLevelWord, Word,
};
use unspack::serializable::Serializable;
use unspack::text::{decimal_string, signed_decimal_string};

fn lit_word(s: &str) -> TopLevelWord {
    TopLevelWord(ComplexWord::Single(Word::Simple(SimpleWord::Literal(String::from(s)))))
}

fn cmd_word(s: &str) -> RedirectOrCmdWord {
    RedirectOrCmdWord::CmdWord(lit_word(s))
}

fn simple(words: &[&str]) -> SimpleCommand {
    SimpleCommand {
        redirects_or_env_vars: vec![],
        redirects_or_cmd_words: words.iter().map(|w| cmd_word(w)).collect(),
    }
}

fn statement(c: SimpleCommand) -> TopLevelCommand {
    TopLevelCommand(Command::List(AndOrList {
        first: ListableCommand::Single(PipeableCommand::Simple(c)),
        rest: vec![],
    }))
}

fn var(s: &str) -> Box<Arithmetic> {
    Box::new(Arithmetic::Var(String::from(s)))
}

fn parses_as(rendered: &str, expected_source: &str) {
    let mut a = DefaultParser::new(Lexer::new(rendered.chars())).into_iter();
    let mut b = DefaultParser::new(Lexer::new(expected_source.chars())).into_iter();
    let ra = a.next().expect("rendered text holds a statement").expect("rendered text parses");
    let rb = b.next().expect("source holds a statement").expect("source parses");
    assert_eq!(ra, rb);
    assert!(a.next().is_none());
}

#[test]
fn test_serialize_string() {
    assert_eq!(String::from("test").into_string(), String::from("test"));
}

#[test]
fn test_serialize_parameter() {
    let positional = 1;
    assert_eq!(Parameter::At.into_string(), String::from("$@"));
    assert_eq!(Parameter::Star.into_string(), String::from("$*"));
    assert_eq!(Parameter::Question.into_string(), String::from("$?"));
    assert_eq!(Parameter::Pound.into_string(), String::from("$#"));
    assert_eq!(Parameter::Dash.into_string(), String::from("$-"));
    assert_eq!(Parameter::Dollar.into_string(), String::from("$$"));
    assert_eq!(Parameter::Bang.into_string(), String::from("$!"));
    assert_eq!(Parameter::Positional(positional).into_string(), format!("${}", positional));
    assert_eq!(Parameter::Var(String::from("test")).into_string(), String::from("$test"));
}

#[test]
fn test_serialize_arithmetic() {
    assert_eq!(Arithmetic::Var(String::from("test")).into_string(), String::from("test"));
    assert_eq!(Arithmetic::Literal(1).into_string(), format!("{}", 1));
    assert_eq!(
        Arithmetic::Pow(Box::new(Arithmetic::Literal(2)), Box::new(Arithmetic::Literal(16))).into_string(),
        format!("{} ** {}", 2, 16)
    );
    assert_eq!(Arithmetic::PostIncr(String::from("1")).into_string(), format!("{}++", 1));
    assert_eq!(Arithmetic::PostDecr(String::from("1")).into_string(), format!("{}--", 1));
    assert_eq!(Arithmetic::PreIncr(String::from("1")).into_string(), format!("++{}", 1));
    assert_eq!(Arithmetic::PreDecr(String::from("1")).into_string(), format!("--{}", 1));
    assert_eq!(Arithmetic::UnaryPlus(var("test")).into_string(), format!("+({})", "test"));
    assert_eq!(Arithmetic::UnaryMinus(var("test")).into_string(), format!("-({})", "test"));
    assert_eq!(Arithmetic::LogicalNot(var("test")).into_string(), format!("!{}", "test"));
    assert_eq!(Arithmetic::BitwiseNot(var("test")).into_string(), format!("~{}", "test"));
    assert_eq!(Arithmetic::Mult(var("lhs"), var("rhs")).into_string(), format!("{} * {}", "lhs", "rhs"));
    assert_eq!(Arithmetic::Div(var("lhs"), var("rhs")).into_string(), format!("{} / {}", "lhs", "rhs"));
    assert_eq!(Arithmetic::Modulo(var("lhs"), var("rhs")).into_string(), format!("{} % {}", "lhs", "rhs"));
    assert_eq!(Arithmetic::Add(var("lhs"), var("rhs")).into_string(), format!("{} + {}", "lhs", "rhs"));
    assert_eq!(Arithmetic::Sub(var("lhs"), var("rhs")).into_string(), format!("{} - {}", "lhs", "rhs"));
    assert_eq!(
        Arithmetic::ShiftLeft(var("lhs"), var("rhs")).into_string(),
        format!("{} << {}", "lhs", "rhs")
    );
    assert_eq!(
        Arithmetic::ShiftRight(var("lhs"), var("rhs")).into_string(),
        format!("{} >> {}", "lhs", "rhs")
    );
    assert_eq!(Arithmetic::Less(var("lhs"), var("rhs")).into_string(), format!("{} < {}", "lhs", "rhs"));
    assert_eq!(Arithmetic::Great(var("lhs"), var("rhs")).into_string(), format!("{} > {}", "lhs", "rhs"));
    assert_eq!(Arithmetic::LessEq(var("lhs"), var("rhs")).into_string(), format!("{} <= {}", "lhs", "rhs"));
    assert_eq!(Arithmetic::GreatEq(var("lhs"), var("rhs")).into_string(), format!("{} >= {}", "lhs", "rhs"));
    assert_eq!(Arithmetic::Eq(var("lhs"), var("rhs")).into_string(), format!("{} == {}", "lhs", "rhs"));
    assert_eq!(Arithmetic::NotEq(var("lhs"), var("rhs")).into_string(), format!("{} != {}", "lhs", "rhs"));
    assert_eq!(
        Arithmetic::BitwiseAnd(var("lhs"), var("rhs")).into_string(),
        format!("{} & {}", "lhs", "rhs")
    );
    assert_eq!(
        Arithmetic::BitwiseXor(var("lhs"), var("rhs")).into_string(),
        format!("{} ^ {}", "lhs", "rhs")
    );
    assert_eq!(
        Arithmetic::BitwiseOr(var("lhs"), var("rhs")).into_string(),
        format!("{} | {}", "lhs", "rhs")
    );
    assert_eq!(
        Arithmetic::LogicalAnd(var("lhs"), var("rhs")).into_string(),
        format!("{} && {}", "lhs", "rhs")
    );
    assert_eq!(
        Arithmetic::LogicalOr(var("lhs"), var("rhs")).into_string(),
        format!("{} || {}", "lhs", "rhs")
    );
    assert_eq!(
        Arithmetic::Ternary(var("cond"), var("lhs"), var("rhs")).into_string(),
        format!("{} ? {} : {}", "cond", "lhs", "rhs")
    );
    assert_eq!(
        Arithmetic::Assign(String::from("test"), Box::new(Arithmetic::Literal(1))).into_string(),
        format!("{} = {}", "test", 1)
    );
    assert_eq!(
        Arithmetic::Sequence(vec![Arithmetic::Literal(1), Arithmetic::Literal(2), Arithmetic::Literal(3)])
            .into_string(),
        String::from("1, 2, 3")
    );
}

#[test]
fn decimal_numbers() {
    assert_eq!(decimal_string(0), "0");
    assert_eq!(decimal_string(7), "7");
    assert_eq!(decimal_string(10), "10");
    assert_eq!(decimal_string(1234567890), "1234567890");
    assert_eq!(decimal_string(u64::MAX), u64::MAX.to_string());
    assert_eq!(signed_decimal_string(-42), "-42");
    assert_eq!(signed_decimal_string(isize::MIN), isize::MIN.to_string());
    assert_eq!(Arithmetic::Literal(-5).into_string(), "-5");
}

#[test]
fn positional_above_nine_is_braced() {
    assert_eq!(Parameter::Positional(9).into_string(), "$9");
    assert_eq!(Parameter::Positional(10).into_string(), "${10}");
    parses_as(
        &statement(SimpleCommand {
            redirects_or_env_vars: vec![],
            redirects_or_cmd_words: vec![
                cmd_word("echo"),
                RedirectOrCmdWord::CmdWord(TopLevelWord(ComplexWord::Single(Word::Simple(
                    SimpleWord::Param(Parameter::Positional(12)),
                )))),
            ],
        })
        .into_string(),
        "echo ${12}",
    );
}

#[test]
fn substitution_forms() {
    let p = || Parameter::Var(String::from("x"));
    let w = || Some(lit_word("d"));
    assert_eq!(ParameterSubstitution::Default(true, p(), w()).into_string(), "${x:-d}");
    assert_eq!(ParameterSubstitution::Default(false, p(), w()).into_string(), "${x-d}");
    assert_eq!(ParameterSubstitution::Assign(true, p(), w()).into_string(), "${x:=d}");
    assert_eq!(ParameterSubstitution::Assign(false, p(), None).into_string(), "${x=}");
    assert_eq!(ParameterSubstitution::Error(true, p(), w()).into_string(), "${x:?d}");
    assert_eq!(ParameterSubstitution::Alternative(false, p(), w()).into_string(), "${x+d}");
    assert_eq!(ParameterSubstitution::RemoveSmallestSuffix(p(), w()).into_string(), "${x%d}");
    assert_eq!(ParameterSubstitution::RemoveLargestSuffix(p(), w()).into_string(), "${x%%d}");
    assert_eq!(ParameterSubstitution::RemoveSmallestPrefix(p(), w()).into_string(), "${x#d}");
    assert_eq!(ParameterSubstitution::RemoveLargestPrefix(p(), w()).into_string(), "${x##d}");
    assert_eq!(ParameterSubstitution::Len(p()).into_string(), "${#x}");
    assert_eq!(ParameterSubstitution::Len(Parameter::At).into_string(), "${#@}");
    assert_eq!(ParameterSubstitution::Default(true, Parameter::Positional(1), w()).into_string(), "${1:-d}");
    assert_eq!(ParameterSubstitution::Arith(None).into_string(), "$(())");
    assert_eq!(
        ParameterSubstitution::Arith(Some(Arithmetic::Add(var("a"), Box::new(Arithmetic::Literal(1)))))
            .into_string(),
        "$((a + 1))"
    );
    assert_eq!(
        ParameterSubstitution::Command(vec![statement(simple(&["pwd"]))]).into_string(),
        "$(pwd)"
    );
}

#[test]
fn words_and_quotes() {
    assert_eq!(Word::SingleQuoted(String::from("a b")).into_string(), "'a b'");
    assert_eq!(
        Word::DoubleQuoted(vec![
            SimpleWord::Literal(String::from("v=")),
            SimpleWord::Param(Parameter::Var(String::from("HOME"))),
        ])
        .into_string(),
        "\"v=$HOME\""
    );
    assert_eq!(SimpleWord::Escaped(String::from("$")).into_string(), "\\$");
    assert_eq!(
        ComplexWord::Concat(vec![
            Word::Simple(SimpleWord::Tilde),
            Word::Simple(SimpleWord::Literal(String::from("/x"))),
            Word::Simple(SimpleWord::Star),
            Word::Simple(SimpleWord::Question),
            Word::Simple(SimpleWord::SquareOpen),
            Word::Simple(SimpleWord::Colon),
            Word::Simple(SimpleWord::SquareClose),
        ])
        .into_string(),
        "~/x*?[:]"
    );
}

#[test]
fn redirect_forms() {
    let t = || lit_word("target");
    assert_eq!(Redirect::Write(Some(2), t()).into_string(), "2> target");
    assert_eq!(Redirect::Read(None, t()).into_string(), "< target");
    assert_eq!(Redirect::ReadWrite(Some(3), t()).into_string(), "3<> target");
    assert_eq!(Redirect::Append(None, t()).into_string(), ">> target");
    assert_eq!(Redirect::Clobber(None, t()).into_string(), ">| target");
    assert_eq!(Redirect::DupRead(Some(0), lit_word("3")).into_string(), "0<& 3");
    assert_eq!(Redirect::DupWrite(Some(2), lit_word("1")).into_string(), "2>& 1");
    assert_eq!(Redirect::Heredoc(None, lit_word("hi")).into_string(), "<<EOF\nhi\nEOF");
}

#[test]
fn write_redirect_round_trips() {
    let c = SimpleCommand {
        redirects_or_env_vars: vec![],
        redirects_or_cmd_words: vec![
            cmd_word("cmd"),
            RedirectOrCmdWord::Redirect(Redirect::Write(Some(2), lit_word("target"))),
        ],
    };
    let text = statement(c).into_string();
    assert_eq!(text, "cmd 2> target");
    parses_as(&text, "cmd 2>target");
}

#[test]
fn simple_command_spacing() {
    let only_env = SimpleCommand {
        redirects_or_env_vars: vec![RedirectOrEnvVar::EnvVar(String::from("A"), Some(lit_word("1")))],
        redirects_or_cmd_words: vec![],
    };
    assert_eq!(only_env.into_string(), "A=1");
    let both = SimpleCommand {
        redirects_or_env_vars: vec![
            RedirectOrEnvVar::EnvVar(String::from("A"), None),
            RedirectOrEnvVar::Redirect(Redirect::Read(None, lit_word("in"))),
        ],
        redirects_or_cmd_words: vec![cmd_word("run"), cmd_word("x")],
    };
    assert_eq!(both.into_string(), "A= < in run x");
    assert_eq!(simple(&[]).into_string(), "");
}

#[test]
fn lists_jobs_and_pipelines_round_trip() {
    let stage = |w: &[&str]| PipeableCommand::Simple(simple(w));
    let c = TopLevelCommand(Command::Job(AndOrList {
        first: ListableCommand::Pipe(true, vec![stage(&["a", "x"]), stage(&["b"])]),
        rest: vec![
            AndOr::And(ListableCommand::Single(stage(&["c"]))),
            AndOr::Or(ListableCommand::Single(stage(&["d"]))),
        ],
    }));
    let text = c.into_string();
    assert_eq!(text, "! a x | b && c || d &");
    parses_as(&text, "! a x | b && c || d &");
}

#[test]
fn compound_commands_round_trip() {
    let body = || vec![statement(simple(&["echo", "hi"]))];
    let guard = || vec![statement(simple(&["true"]))];
    let if_cmd = CompoundCommand {
        kind: CompoundCommandKind::If {
            conditionals: vec![
                GuardBodyPair { guard: guard(), body: body() },
                GuardBodyPair { guard: vec![statement(simple(&["false"]))], body: body() },
            ],
            else_branch: Some(body()),
        },
        io: vec![],
    };
    let text = if_cmd.into_string();
    assert_eq!(text, "if true; then\necho hi\nelif false; then\necho hi\nelse\necho hi\nfi");
    parses_as(&text, "if true; then echo hi; elif false; then echo hi; else echo hi; fi");

    let for_cmd = CompoundCommand {
        kind: CompoundCommandKind::For {
            var: String::from("i"),
            words: Some(vec![lit_word("a"), lit_word("b")]),
            body: body(),
        },
        io: vec![Redirect::Write(None, lit_word("out"))],
    };
    let text = for_cmd.into_string();
    assert_eq!(text, "for i in a b; do\necho hi\ndone > out");
    parses_as(&text, "for i in a b; do echo hi; done >out");

    let while_cmd = CompoundCommandKind::While(GuardBodyPair { guard: guard(), body: body() });
    assert_eq!(while_cmd.into_string(), "while true; do\necho hi\ndone");
    let until_cmd = CompoundCommandKind::Until(GuardBodyPair { guard: guard(), body: body() });
    assert_eq!(until_cmd.into_string(), "until true; do\necho hi\ndone");
    assert_eq!(CompoundCommandKind::Brace(body()).into_string(), "{ echo hi; }");
    assert_eq!(CompoundCommandKind::Subshell(body()).into_string(), "( echo hi )");
    let for_all = CompoundCommandKind::For { var: String::from("i"), words: None, body: body() };
    assert_eq!(for_all.into_string(), "for i; do\necho hi\ndone");

    let case_cmd = CompoundCommand {
        kind: CompoundCommandKind::Case {
            word: lit_word("x"),
            arms: vec![PatternBodyPair { patterns: vec![lit_word("a"), lit_word("b")], body: body() }],
        },
        io: vec![],
    };
    let text = case_cmd.into_string();
    assert_eq!(text, "case x in a|b)\necho hi\n;;\nesac");
    parses_as(&text, "case x in a|b) echo hi;; esac");

    let f = PipeableCommand::FunctionDef(
        String::from("f"),
        CompoundCommand { kind: CompoundCommandKind::Brace(body()), io: vec![] },
    );
    assert_eq!(PatternBodyPair { patterns: vec![lit_word("*")], body: vec![] }.into_string(), "*)\n\n;;");
    assert_eq!(f.into_string(), "function f() {\n{ echo hi; }\n}");
}

#[test]
fn substitution_round_trips() {
    let w = |s: SimpleWord| RedirectOrCmdWord::CmdWord(TopLevelWord(ComplexWord::Single(Word::Simple(s))));
    let c = SimpleCommand {
        redirects_or_env_vars: vec![],
        redirects_or_cmd_words: vec![
            cmd_word("echo"),
            w(SimpleWord::Subst(Box::new(ParameterSubstitution::Default(
                true,
                Parameter::Var(String::from("x")),
                Some(lit_word("d")),
            )))),
            w(SimpleWord::Subst(Box::new(ParameterSubstitution::RemoveSmallestSuffix(
                Parameter::Var(String::from("y")),
                Some(lit_word("z")),
            )))),
            w(SimpleWord::Subst(Box::new(ParameterSubstitution::RemoveLargestPrefix(
                Parameter::Var(String::from("y")),
                Some(lit_word("z")),
            )))),
            w(SimpleWord::Subst(Box::new(ParameterSubstitution::Len(Parameter::Var(String::from("y")))))),
        ],
    };
    let text = c.into_string();
    assert_eq!(text, "echo ${x:-d} ${y%z} ${y##z} ${#y}");
    parses_as(&text, "echo ${x:-d} ${y%z} ${y##z} ${#y}");
}
