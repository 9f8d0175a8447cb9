//! The printer: every node of the syntax tree written back as shell text.
//!
//! Each node kind has a spec function that states its text, and an
//! executable function that produces exactly that text. Lists of nodes are
//! joined with a separator that depends on where they stand.
use vstd::prelude::*;

use crate::ast::{
    AndOr, AndOrList, Arithmetic, Command, ComplexWord, CompoundCommand, CompoundCommandKind,
    GuardBodyPair, ListableCommand, Parameter, ParameterSubstitution, PatternBodyPair,
    PipeableCommand, Redirect, RedirectOrCmdWord, RedirectOrEnvVar, SimpleCommand, SimpleWord,
    TopLevelCommand, TopLevelWord, Word,
};
use crate::text::{
    concat_string, decimal, decimal_string, infix_string, prefix_string, signed_decimal, signed_decimal_string, spaced,
    spaced_string, suffix_string, wrap_string,
};

verus! {

// The texts, as spec functions.

/// The name of a parameter as it stands inside `${...}`.
pub open spec fn param_name(p: Parameter) -> Seq<char> {
    match p {
        Parameter::At => "@"@,
        Parameter::Star => "*"@,
        Parameter::Pound => "#"@,
        Parameter::Question => "?"@,
        Parameter::Dash => "-"@,
        Parameter::Dollar => "$"@,
        Parameter::Bang => "!"@,
        Parameter::Positional(n) => decimal(n as nat),
        Parameter::Var(v) => v@,
    }
}

/// A parameter reference: `$` and its name, in braces for a positional
/// parameter above 9 so that its digits stay together.
pub open spec fn param_text(p: Parameter) -> Seq<char> {
    match p {
        Parameter::Positional(n) => if n > 9 {
            "${"@ + decimal(n as nat) + "}"@
        } else {
            "$"@ + decimal(n as nat)
        },
        _ => "$"@ + param_name(p),
    }
}

/// The operator of a substitution, with a colon before it when the flag is set.
pub open spec fn colon_op(colon: bool, op: Seq<char>) -> Seq<char> {
    if colon {
        ":"@ + op
    } else {
        op
    }
}

/// `${name<op><operand>}`.
pub open spec fn braced(name: Seq<char>, op: Seq<char>, operand: Seq<char>) -> Seq<char> {
    "${"@ + name + op + operand + "}"@
}

/// The file descriptor written before a redirection operator, if any.
pub open spec fn fd_text(fd: Option<u16>) -> Seq<char> {
    match fd {
        Some(n) => decimal(n as nat),
        None => Seq::empty(),
    }
}

/// The texts of the elements of `s`, with `sep` between two neighbours.
pub open spec fn commands_text(s: Seq<TopLevelCommand>, sep: Seq<char>) -> Seq<char>
    decreases s,
{
    if s.len() == 0 {
        Seq::empty()
    } else if s.len() == 1 {
        top_command_text(s[0])
    } else {
        commands_text(s.subrange(0, s.len() - 1), sep) + sep + top_command_text(s[s.len() - 1])
    }
}

/// The texts of the elements of `s`, with `sep` between two neighbours.
pub open spec fn top_words_text(s: Seq<TopLevelWord>, sep: Seq<char>) -> Seq<char>
    decreases s,
{
    if s.len() == 0 {
        Seq::empty()
    } else if s.len() == 1 {
        top_word_text(s[0])
    } else {
        top_words_text(s.subrange(0, s.len() - 1), sep) + sep + top_word_text(s[s.len() - 1])
    }
}

/// The texts of the elements of `s`, with `sep` between two neighbours.
pub open spec fn simple_words_text(s: Seq<SimpleWord>, sep: Seq<char>) -> Seq<char>
    decreases s,
{
    if s.len() == 0 {
        Seq::empty()
    } else if s.len() == 1 {
        simple_word_text(s[0])
    } else {
        simple_words_text(s.subrange(0, s.len() - 1), sep) + sep + simple_word_text(s[s.len() - 1])
    }
}

/// The texts of the elements of `s`, with `sep` between two neighbours.
pub open spec fn words_text(s: Seq<Word>, sep: Seq<char>) -> Seq<char>
    decreases s,
{
    if s.len() == 0 {
        Seq::empty()
    } else if s.len() == 1 {
        word_text(s[0])
    } else {
        words_text(s.subrange(0, s.len() - 1), sep) + sep + word_text(s[s.len() - 1])
    }
}

/// The texts of the elements of `s`, with `sep` between two neighbours.
pub open spec fn ariths_text(s: Seq<Arithmetic>, sep: Seq<char>) -> Seq<char>
    decreases s,
{
    if s.len() == 0 {
        Seq::empty()
    } else if s.len() == 1 {
        arith_text(s[0])
    } else {
        ariths_text(s.subrange(0, s.len() - 1), sep) + sep + arith_text(s[s.len() - 1])
    }
}

/// The texts of the elements of `s`, with `sep` between two neighbours.
pub open spec fn redirects_text(s: Seq<Redirect>, sep: Seq<char>) -> Seq<char>
    decreases s,
{
    if s.len() == 0 {
        Seq::empty()
    } else if s.len() == 1 {
        redirect_text(s[0])
    } else {
        redirects_text(s.subrange(0, s.len() - 1), sep) + sep + redirect_text(s[s.len() - 1])
    }
}

/// The texts of the elements of `s`, with `sep` between two neighbours.
pub open spec fn env_prefix_text(s: Seq<RedirectOrEnvVar>, sep: Seq<char>) -> Seq<char>
    decreases s,
{
    if s.len() == 0 {
        Seq::empty()
    } else if s.len() == 1 {
        env_prefix_token_text(s[0])
    } else {
        env_prefix_text(s.subrange(0, s.len() - 1), sep) + sep + env_prefix_token_text(s[s.len() - 1])
    }
}

/// The texts of the elements of `s`, with `sep` between two neighbours.
pub open spec fn cmd_words_text(s: Seq<RedirectOrCmdWord>, sep: Seq<char>) -> Seq<char>
    decreases s,
{
    if s.len() == 0 {
        Seq::empty()
    } else if s.len() == 1 {
        cmd_word_token_text(s[0])
    } else {
        cmd_words_text(s.subrange(0, s.len() - 1), sep) + sep + cmd_word_token_text(s[s.len() - 1])
    }
}

/// The texts of the elements of `s`, with `sep` between two neighbours.
pub open spec fn and_ors_text(s: Seq<AndOr>, sep: Seq<char>) -> Seq<char>
    decreases s,
{
    if s.len() == 0 {
        Seq::empty()
    } else if s.len() == 1 {
        and_or_text(s[0])
    } else {
        and_ors_text(s.subrange(0, s.len() - 1), sep) + sep + and_or_text(s[s.len() - 1])
    }
}

/// The texts of the elements of `s`, with `sep` between two neighbours.
pub open spec fn pipeables_text(s: Seq<PipeableCommand>, sep: Seq<char>) -> Seq<char>
    decreases s,
{
    if s.len() == 0 {
        Seq::empty()
    } else if s.len() == 1 {
        pipeable_text(s[0])
    } else {
        pipeables_text(s.subrange(0, s.len() - 1), sep) + sep + pipeable_text(s[s.len() - 1])
    }
}

/// The texts of the elements of `s`, with `sep` between two neighbours.
pub open spec fn arms_text(s: Seq<PatternBodyPair>, sep: Seq<char>) -> Seq<char>
    decreases s,
{
    if s.len() == 0 {
        Seq::empty()
    } else if s.len() == 1 {
        arm_text(s[0])
    } else {
        arms_text(s.subrange(0, s.len() - 1), sep) + sep + arm_text(s[s.len() - 1])
    }
}

/// The texts of the elements of `s`, with `sep` between two neighbours.
pub open spec fn if_cases_text(s: Seq<GuardBodyPair>, sep: Seq<char>) -> Seq<char>
    decreases s,
{
    if s.len() == 0 {
        Seq::empty()
    } else if s.len() == 1 {
        if_case_text(s[0])
    } else {
        if_cases_text(s.subrange(0, s.len() - 1), sep) + sep + if_case_text(s[s.len() - 1])
    }
}

/// An arithmetic expression, written as the tree stands: no parentheses are
/// added, the shape of the tree is trusted to carry the precedence.
pub open spec fn arith_text(a: Arithmetic) -> Seq<char>
    decreases a,
{
    match a {
        Arithmetic::Var(v) => v@,
        Arithmetic::Literal(n) => signed_decimal(n as int),
        Arithmetic::Pow(l, r) => arith_text(*l) + " ** "@ + arith_text(*r),
        Arithmetic::Mult(l, r) => arith_text(*l) + " * "@ + arith_text(*r),
        Arithmetic::Div(l, r) => arith_text(*l) + " / "@ + arith_text(*r),
        Arithmetic::Modulo(l, r) => arith_text(*l) + " % "@ + arith_text(*r),
        Arithmetic::Add(l, r) => arith_text(*l) + " + "@ + arith_text(*r),
        Arithmetic::Sub(l, r) => arith_text(*l) + " - "@ + arith_text(*r),
        Arithmetic::ShiftLeft(l, r) => arith_text(*l) + " << "@ + arith_text(*r),
        Arithmetic::ShiftRight(l, r) => arith_text(*l) + " >> "@ + arith_text(*r),
        Arithmetic::Less(l, r) => arith_text(*l) + " < "@ + arith_text(*r),
        Arithmetic::LessEq(l, r) => arith_text(*l) + " <= "@ + arith_text(*r),
        Arithmetic::Great(l, r) => arith_text(*l) + " > "@ + arith_text(*r),
        Arithmetic::GreatEq(l, r) => arith_text(*l) + " >= "@ + arith_text(*r),
        Arithmetic::Eq(l, r) => arith_text(*l) + " == "@ + arith_text(*r),
        Arithmetic::NotEq(l, r) => arith_text(*l) + " != "@ + arith_text(*r),
        Arithmetic::BitwiseAnd(l, r) => arith_text(*l) + " & "@ + arith_text(*r),
        Arithmetic::BitwiseXor(l, r) => arith_text(*l) + " ^ "@ + arith_text(*r),
        Arithmetic::BitwiseOr(l, r) => arith_text(*l) + " | "@ + arith_text(*r),
        Arithmetic::LogicalAnd(l, r) => arith_text(*l) + " && "@ + arith_text(*r),
        Arithmetic::LogicalOr(l, r) => arith_text(*l) + " || "@ + arith_text(*r),
        Arithmetic::PostIncr(v) => v@ + "++"@,
        Arithmetic::PostDecr(v) => v@ + "--"@,
        Arithmetic::PreIncr(v) => "++"@ + v@,
        Arithmetic::PreDecr(v) => "--"@ + v@,
        Arithmetic::UnaryPlus(x) => "+("@ + arith_text(*x) + ")"@,
        Arithmetic::UnaryMinus(x) => "-("@ + arith_text(*x) + ")"@,
        Arithmetic::LogicalNot(x) => "!"@ + arith_text(*x),
        Arithmetic::BitwiseNot(x) => "~"@ + arith_text(*x),
        Arithmetic::Ternary(c, l, r) => arith_text(*c) + " ? "@ + arith_text(*l) + " : "@ + arith_text(*r),
        Arithmetic::Assign(v, x) => v@ + " = "@ + arith_text(*x),
        Arithmetic::Sequence(v) => ariths_text(v@, ", "@),
    }
}

/// The word after a substitution operator, or nothing.
pub open spec fn operand_text(w: Option<TopLevelWord>) -> Seq<char>
    decreases w,
{
    match w {
        Some(x) => top_word_text(x),
        None => Seq::empty(),
    }
}

/// A parameter substitution, with the POSIX punctuation of its form.
pub open spec fn subst_text(s: ParameterSubstitution) -> Seq<char>
    decreases s,
{
    match s {
        ParameterSubstitution::Command(v) => "$("@ + commands_text(v@, "; "@) + ")"@,
        ParameterSubstitution::Len(p) => "${#"@ + param_name(p) + "}"@,
        ParameterSubstitution::Arith(a) => match a {
            Some(x) => "$(("@ + arith_text(x) + "))"@,
            None => "$(())"@,
        },
        ParameterSubstitution::Default(c, p, x) => braced(param_name(p), colon_op(c, "-"@), operand_text(x)),
        ParameterSubstitution::Assign(c, p, x) => braced(param_name(p), colon_op(c, "="@), operand_text(x)),
        ParameterSubstitution::Error(c, p, x) => braced(param_name(p), colon_op(c, "?"@), operand_text(x)),
        ParameterSubstitution::Alternative(c, p, x) => braced(param_name(p), colon_op(c, "+"@), operand_text(x)),
        ParameterSubstitution::RemoveSmallestSuffix(p, x) => braced(param_name(p), "%"@, operand_text(x)),
        ParameterSubstitution::RemoveLargestSuffix(p, x) => braced(param_name(p), "%%"@, operand_text(x)),
        ParameterSubstitution::RemoveSmallestPrefix(p, x) => braced(param_name(p), "#"@, operand_text(x)),
        ParameterSubstitution::RemoveLargestPrefix(p, x) => braced(param_name(p), "##"@, operand_text(x)),
    }
}

/// The smallest pieces of a word.
pub open spec fn simple_word_text(w: SimpleWord) -> Seq<char>
    decreases w,
{
    match w {
        SimpleWord::Literal(l) => l@,
        SimpleWord::Escaped(e) => "\\"@ + e@,
        SimpleWord::Param(p) => param_text(p),
        SimpleWord::Subst(s) => subst_text(*s),
        SimpleWord::Star => "*"@,
        SimpleWord::Question => "?"@,
        SimpleWord::SquareOpen => "["@,
        SimpleWord::SquareClose => "]"@,
        SimpleWord::Tilde => "~"@,
        SimpleWord::Colon => ":"@,
    }
}

/// A word: double-quoted parts are wrapped in `"`, single-quoted text in `'`.
pub open spec fn word_text(w: Word) -> Seq<char>
    decreases w,
{
    match w {
        Word::Simple(x) => simple_word_text(x),
        Word::DoubleQuoted(v) => "\""@ + simple_words_text(v@, ""@) + "\""@,
        Word::SingleQuoted(s) => "'"@ + s@ + "'"@,
    }
}

/// A word of several parts is its parts with nothing between them.
pub open spec fn complex_word_text(w: ComplexWord) -> Seq<char>
    decreases w,
{
    match w {
        ComplexWord::Concat(v) => words_text(v@, ""@),
        ComplexWord::Single(x) => word_text(x),
    }
}

pub open spec fn top_word_text(w: TopLevelWord) -> Seq<char>
    decreases w,
{
    complex_word_text(w.0)
}

/// A redirection: its file descriptor, its operator, a space and its target.
/// A here-document is written out between `<<EOF` and `EOF` lines.
pub open spec fn redirect_text(r: Redirect) -> Seq<char>
    decreases r,
{
    match r {
        Redirect::Read(fd, x) => fd_text(fd) + "< "@ + top_word_text(x),
        Redirect::Write(fd, x) => fd_text(fd) + "> "@ + top_word_text(x),
        Redirect::ReadWrite(fd, x) => fd_text(fd) + "<> "@ + top_word_text(x),
        Redirect::Append(fd, x) => fd_text(fd) + ">> "@ + top_word_text(x),
        Redirect::Clobber(fd, x) => fd_text(fd) + ">| "@ + top_word_text(x),
        Redirect::DupRead(fd, x) => fd_text(fd) + "<& "@ + top_word_text(x),
        Redirect::DupWrite(fd, x) => fd_text(fd) + ">& "@ + top_word_text(x),
        Redirect::Heredoc(fd, x) => fd_text(fd) + "<<EOF\n"@ + top_word_text(x) + "\nEOF"@,
    }
}

/// An assignment `name=value` or a redirection, before the command word.
pub open spec fn env_prefix_token_text(t: RedirectOrEnvVar) -> Seq<char>
    decreases t,
{
    match t {
        RedirectOrEnvVar::Redirect(r) => redirect_text(r),
        RedirectOrEnvVar::EnvVar(k, v) => k@ + "="@ + operand_text(v),
    }
}

/// A word or a redirection, from the command word on.
pub open spec fn cmd_word_token_text(t: RedirectOrCmdWord) -> Seq<char>
    decreases t,
{
    match t {
        RedirectOrCmdWord::Redirect(r) => redirect_text(r),
        RedirectOrCmdWord::CmdWord(x) => top_word_text(x),
    }
}

/// The assignments and redirections, then the words, one space between the
/// two groups only when both are there.
pub open spec fn simple_command_text(c: SimpleCommand) -> Seq<char>
    decreases c,
{
    spaced(
        env_prefix_text(c.redirects_or_env_vars@, " "@),
        cmd_words_text(c.redirects_or_cmd_words@, " "@),
    )
}

/// One `if` or `elif` block, written as an `if` block.
pub open spec fn if_case_text(g: GuardBodyPair) -> Seq<char>
    decreases g,
{
    "if "@ + commands_text(g.guard@, "; "@) + "; then\n"@ + commands_text(g.body@, "\n"@)
}

/// One arm of a `case` command.
pub open spec fn arm_text(a: PatternBodyPair) -> Seq<char>
    decreases a,
{
    top_words_text(a.patterns@, "|"@) + ")\n"@ + commands_text(a.body@, "\n"@) + "\n;;"@
}

/// A compound command as a block of lines. The blocks of an `if` chain are
/// joined by `"\nel"`, which makes every one but the first an `elif`.
pub open spec fn kind_text(k: CompoundCommandKind) -> Seq<char>
    decreases k,
{
    match k {
        CompoundCommandKind::Brace(v) => "{ "@ + commands_text(v@, "; "@) + "; }"@,
        CompoundCommandKind::Subshell(v) => "( "@ + commands_text(v@, "; "@) + " )"@,
        CompoundCommandKind::While(g) => "while "@ + commands_text(g.guard@, "; "@) + "; do\n"@
            + commands_text(g.body@, "\n"@) + "\ndone"@,
        CompoundCommandKind::Until(g) => "until "@ + commands_text(g.guard@, "; "@) + "; do\n"@
            + commands_text(g.body@, "\n"@) + "\ndone"@,
        CompoundCommandKind::If { conditionals, else_branch } => if_cases_text(
            conditionals@,
            "\nel"@,
        ) + match else_branch {
            Some(v) => "\nelse\n"@ + commands_text(v@, "\n"@) + "\nfi"@,
            None => "\nfi"@,
        },
        CompoundCommandKind::For { var, words, body } => match words {
            Some(ws) => "for "@ + var@ + " in "@ + top_words_text(ws@, " "@) + "; do\n"@
                + commands_text(body@, "\n"@) + "\ndone"@,
            None => "for "@ + var@ + "; do\n"@ + commands_text(body@, "\n"@) + "\ndone"@,
        },
        CompoundCommandKind::Case { word, arms } => "case "@ + top_word_text(word) + " in "@
            + arms_text(arms@, "\n"@) + "\nesac"@,
    }
}

/// A compound command, then its redirections.
pub open spec fn compound_text(c: CompoundCommand) -> Seq<char>
    decreases c,
{
    spaced(kind_text(c.kind), redirects_text(c.io@, " "@))
}

pub open spec fn pipeable_text(p: PipeableCommand) -> Seq<char>
    decreases p,
{
    match p {
        PipeableCommand::Simple(c) => simple_command_text(c),
        PipeableCommand::Compound(c) => compound_text(c),
        PipeableCommand::FunctionDef(name, body) => "function "@ + name@ + "() {\n"@
            + compound_text(body) + "\n}"@,
    }
}

/// A single command, or the stages of a pipeline joined by ` | `.
pub open spec fn listable_text(c: ListableCommand) -> Seq<char>
    decreases c,
{
    match c {
        ListableCommand::Pipe(bang, v) => if bang {
            "! "@ + pipeables_text(v@, " | "@)
        } else {
            pipeables_text(v@, " | "@)
        },
        ListableCommand::Single(p) => pipeable_text(p),
    }
}

pub open spec fn and_or_text(a: AndOr) -> Seq<char>
    decreases a,
{
    match a {
        AndOr::And(c) => "&& "@ + listable_text(c),
        AndOr::Or(c) => "|| "@ + listable_text(c),
    }
}

/// The first pipeline, then the followers, leaving out what is empty.
pub open spec fn and_or_list_text(l: AndOrList) -> Seq<char>
    decreases l,
{
    spaced(listable_text(l.first), and_ors_text(l.rest@, " "@))
}

/// A job is its list followed by ` &`.
pub open spec fn command_text(c: Command) -> Seq<char>
    decreases c,
{
    match c {
        Command::Job(l) => and_or_list_text(l) + " &"@,
        Command::List(l) => and_or_list_text(l),
    }
}

pub open spec fn top_command_text(c: TopLevelCommand) -> Seq<char>
    decreases c,
{
    command_text(c.0)
}

// The executable printer.

pub(crate) fn commands_string(v: &Vec<TopLevelCommand>, sep: &str) -> (r: String)
    ensures
        r@ == commands_text(v@, sep@),
    decreases v,
{
    let mut r = String::new();
    let mut i: usize = 0;
    while i < v.len()
        invariant
            i <= v.len(),
            r@ == commands_text(v@.subrange(0, i as int), sep@),
        decreases v.len() - i,
    {
        assert(v@.subrange(0, i + 1).subrange(0, i as int) == v@.subrange(0, i as int));
        let t = top_command_string(&v[i]);
        if i > 0 {
            r.append(sep);
        }
        r.append(t.as_str());
        i = i + 1;
    }
    assert(v@.subrange(0, v.len() as int) == v@);
    r
}

fn top_words_string(v: &Vec<TopLevelWord>, sep: &str) -> (r: String)
    ensures
        r@ == top_words_text(v@, sep@),
    decreases v,
{
    let mut r = String::new();
    let mut i: usize = 0;
    while i < v.len()
        invariant
            i <= v.len(),
            r@ == top_words_text(v@.subrange(0, i as int), sep@),
        decreases v.len() - i,
    {
        assert(v@.subrange(0, i + 1).subrange(0, i as int) == v@.subrange(0, i as int));
        let t = top_word_string(&v[i]);
        if i > 0 {
            r.append(sep);
        }
        r.append(t.as_str());
        i = i + 1;
    }
    assert(v@.subrange(0, v.len() as int) == v@);
    r
}

fn simple_words_string(v: &Vec<SimpleWord>, sep: &str) -> (r: String)
    ensures
        r@ == simple_words_text(v@, sep@),
    decreases v,
{
    let mut r = String::new();
    let mut i: usize = 0;
    while i < v.len()
        invariant
            i <= v.len(),
            r@ == simple_words_text(v@.subrange(0, i as int), sep@),
        decreases v.len() - i,
    {
        assert(v@.subrange(0, i + 1).subrange(0, i as int) == v@.subrange(0, i as int));
        let t = simple_word_string(&v[i]);
        if i > 0 {
            r.append(sep);
        }
        r.append(t.as_str());
        i = i + 1;
    }
    assert(v@.subrange(0, v.len() as int) == v@);
    r
}

fn words_string(v: &Vec<Word>, sep: &str) -> (r: String)
    ensures
        r@ == words_text(v@, sep@),
    decreases v,
{
    let mut r = String::new();
    let mut i: usize = 0;
    while i < v.len()
        invariant
            i <= v.len(),
            r@ == words_text(v@.subrange(0, i as int), sep@),
        decreases v.len() - i,
    {
        assert(v@.subrange(0, i + 1).subrange(0, i as int) == v@.subrange(0, i as int));
        let t = word_string(&v[i]);
        if i > 0 {
            r.append(sep);
        }
        r.append(t.as_str());
        i = i + 1;
    }
    assert(v@.subrange(0, v.len() as int) == v@);
    r
}

fn ariths_string(v: &Vec<Arithmetic>, sep: &str) -> (r: String)
    ensures
        r@ == ariths_text(v@, sep@),
    decreases v,
{
    let mut r = String::new();
    let mut i: usize = 0;
    while i < v.len()
        invariant
            i <= v.len(),
            r@ == ariths_text(v@.subrange(0, i as int), sep@),
        decreases v.len() - i,
    {
        assert(v@.subrange(0, i + 1).subrange(0, i as int) == v@.subrange(0, i as int));
        let t = arith_string(&v[i]);
        if i > 0 {
            r.append(sep);
        }
        r.append(t.as_str());
        i = i + 1;
    }
    assert(v@.subrange(0, v.len() as int) == v@);
    r
}

fn redirects_string(v: &Vec<Redirect>, sep: &str) -> (r: String)
    ensures
        r@ == redirects_text(v@, sep@),
    decreases v,
{
    let mut r = String::new();
    let mut i: usize = 0;
    while i < v.len()
        invariant
            i <= v.len(),
            r@ == redirects_text(v@.subrange(0, i as int), sep@),
        decreases v.len() - i,
    {
        assert(v@.subrange(0, i + 1).subrange(0, i as int) == v@.subrange(0, i as int));
        let t = redirect_string(&v[i]);
        if i > 0 {
            r.append(sep);
        }
        r.append(t.as_str());
        i = i + 1;
    }
    assert(v@.subrange(0, v.len() as int) == v@);
    r
}

fn env_prefix_string(v: &Vec<RedirectOrEnvVar>, sep: &str) -> (r: String)
    ensures
        r@ == env_prefix_text(v@, sep@),
    decreases v,
{
    let mut r = String::new();
    let mut i: usize = 0;
    while i < v.len()
        invariant
            i <= v.len(),
            r@ == env_prefix_text(v@.subrange(0, i as int), sep@),
        decreases v.len() - i,
    {
        assert(v@.subrange(0, i + 1).subrange(0, i as int) == v@.subrange(0, i as int));
        let t = env_prefix_token_string(&v[i]);
        if i > 0 {
            r.append(sep);
        }
        r.append(t.as_str());
        i = i + 1;
    }
    assert(v@.subrange(0, v.len() as int) == v@);
    r
}

fn cmd_words_string(v: &Vec<RedirectOrCmdWord>, sep: &str) -> (r: String)
    ensures
        r@ == cmd_words_text(v@, sep@),
    decreases v,
{
    let mut r = String::new();
    let mut i: usize = 0;
    while i < v.len()
        invariant
            i <= v.len(),
            r@ == cmd_words_text(v@.subrange(0, i as int), sep@),
        decreases v.len() - i,
    {
        assert(v@.subrange(0, i + 1).subrange(0, i as int) == v@.subrange(0, i as int));
        let t = cmd_word_token_string(&v[i]);
        if i > 0 {
            r.append(sep);
        }
        r.append(t.as_str());
        i = i + 1;
    }
    assert(v@.subrange(0, v.len() as int) == v@);
    r
}

fn and_ors_string(v: &Vec<AndOr>, sep: &str) -> (r: String)
    ensures
        r@ == and_ors_text(v@, sep@),
    decreases v,
{
    let mut r = String::new();
    let mut i: usize = 0;
    while i < v.len()
        invariant
            i <= v.len(),
            r@ == and_ors_text(v@.subrange(0, i as int), sep@),
        decreases v.len() - i,
    {
        assert(v@.subrange(0, i + 1).subrange(0, i as int) == v@.subrange(0, i as int));
        let t = and_or_string(&v[i]);
        if i > 0 {
            r.append(sep);
        }
        r.append(t.as_str());
        i = i + 1;
    }
    assert(v@.subrange(0, v.len() as int) == v@);
    r
}

fn pipeables_string(v: &Vec<PipeableCommand>, sep: &str) -> (r: String)
    ensures
        r@ == pipeables_text(v@, sep@),
    decreases v,
{
    let mut r = String::new();
    let mut i: usize = 0;
    while i < v.len()
        invariant
            i <= v.len(),
            r@ == pipeables_text(v@.subrange(0, i as int), sep@),
        decreases v.len() - i,
    {
        assert(v@.subrange(0, i + 1).subrange(0, i as int) == v@.subrange(0, i as int));
        let t = pipeable_string(&v[i]);
        if i > 0 {
            r.append(sep);
        }
        r.append(t.as_str());
        i = i + 1;
    }
    assert(v@.subrange(0, v.len() as int) == v@);
    r
}

fn arms_string(v: &Vec<PatternBodyPair>, sep: &str) -> (r: String)
    ensures
        r@ == arms_text(v@, sep@),
    decreases v,
{
    let mut r = String::new();
    let mut i: usize = 0;
    while i < v.len()
        invariant
            i <= v.len(),
            r@ == arms_text(v@.subrange(0, i as int), sep@),
        decreases v.len() - i,
    {
        assert(v@.subrange(0, i + 1).subrange(0, i as int) == v@.subrange(0, i as int));
        let t = arm_string(&v[i]);
        if i > 0 {
            r.append(sep);
        }
        r.append(t.as_str());
        i = i + 1;
    }
    assert(v@.subrange(0, v.len() as int) == v@);
    r
}

fn if_cases_string(v: &Vec<GuardBodyPair>, sep: &str) -> (r: String)
    ensures
        r@ == if_cases_text(v@, sep@),
    decreases v,
{
    let mut r = String::new();
    let mut i: usize = 0;
    while i < v.len()
        invariant
            i <= v.len(),
            r@ == if_cases_text(v@.subrange(0, i as int), sep@),
        decreases v.len() - i,
    {
        assert(v@.subrange(0, i + 1).subrange(0, i as int) == v@.subrange(0, i as int));
        let t = if_case_string(&v[i]);
        if i > 0 {
            r.append(sep);
        }
        r.append(t.as_str());
        i = i + 1;
    }
    assert(v@.subrange(0, v.len() as int) == v@);
    r
}

fn param_name_string(p: &Parameter) -> (r: String)
    ensures
        r@ == param_name(*p),
{
    match p {
        Parameter::At => String::from_str("@"),
        Parameter::Star => String::from_str("*"),
        Parameter::Pound => String::from_str("#"),
        Parameter::Question => String::from_str("?"),
        Parameter::Dash => String::from_str("-"),
        Parameter::Dollar => String::from_str("$"),
        Parameter::Bang => String::from_str("!"),
        Parameter::Positional(n) => decimal_string(*n as u64),
        Parameter::Var(v) => v.clone(),
    }
}

fn param_string(p: &Parameter) -> (r: String)
    ensures
        r@ == param_text(*p),
{
    match p {
        Parameter::Positional(n) => {
            let d = decimal_string(*n as u64);
            if *n > 9 {
                wrap_string("${", d, "}")
            } else {
                prefix_string("$", d)
            }
        },
        _ => {
            let name = param_name_string(p);
            prefix_string("$", name)
        },
    }
}

fn colon_op_string(colon: bool, op: &str) -> (r: String)
    ensures
        r@ == colon_op(colon, op@),
{
    if colon {
        let mut r = String::from_str(":");
        r.append(op);
        r
    } else {
        String::from_str(op)
    }
}

fn braced_string(name: String, op: String, operand: String) -> (r: String)
    ensures
        r@ == braced(name@, op@, operand@),
{
    let mut r = String::from_str("${");
    r.append(name.as_str());
    r.append(op.as_str());
    r.append(operand.as_str());
    r.append("}");
    r
}

fn fd_string(fd: Option<u16>) -> (r: String)
    ensures
        r@ == fd_text(fd),
{
    match fd {
        Some(n) => decimal_string(n as u64),
        None => String::new(),
    }
}

fn arith_string(a: &Arithmetic) -> (r: String)
    ensures
        r@ == arith_text(*a),
    decreases a,
{
    match a {
        Arithmetic::Var(v) => v.clone(),
        Arithmetic::Literal(n) => signed_decimal_string(*n),
        Arithmetic::Pow(l, r) => infix_string(arith_string(l), " ** ", arith_string(r)),
        Arithmetic::Mult(l, r) => infix_string(arith_string(l), " * ", arith_string(r)),
        Arithmetic::Div(l, r) => infix_string(arith_string(l), " / ", arith_string(r)),
        Arithmetic::Modulo(l, r) => infix_string(arith_string(l), " % ", arith_string(r)),
        Arithmetic::Add(l, r) => infix_string(arith_string(l), " + ", arith_string(r)),
        Arithmetic::Sub(l, r) => infix_string(arith_string(l), " - ", arith_string(r)),
        Arithmetic::ShiftLeft(l, r) => infix_string(arith_string(l), " << ", arith_string(r)),
        Arithmetic::ShiftRight(l, r) => infix_string(arith_string(l), " >> ", arith_string(r)),
        Arithmetic::Less(l, r) => infix_string(arith_string(l), " < ", arith_string(r)),
        Arithmetic::LessEq(l, r) => infix_string(arith_string(l), " <= ", arith_string(r)),
        Arithmetic::Great(l, r) => infix_string(arith_string(l), " > ", arith_string(r)),
        Arithmetic::GreatEq(l, r) => infix_string(arith_string(l), " >= ", arith_string(r)),
        Arithmetic::Eq(l, r) => infix_string(arith_string(l), " == ", arith_string(r)),
        Arithmetic::NotEq(l, r) => infix_string(arith_string(l), " != ", arith_string(r)),
        Arithmetic::BitwiseAnd(l, r) => infix_string(arith_string(l), " & ", arith_string(r)),
        Arithmetic::BitwiseXor(l, r) => infix_string(arith_string(l), " ^ ", arith_string(r)),
        Arithmetic::BitwiseOr(l, r) => infix_string(arith_string(l), " | ", arith_string(r)),
        Arithmetic::LogicalAnd(l, r) => infix_string(arith_string(l), " && ", arith_string(r)),
        Arithmetic::LogicalOr(l, r) => infix_string(arith_string(l), " || ", arith_string(r)),
        Arithmetic::PostIncr(v) => suffix_string(v.clone(), "++"),
        Arithmetic::PostDecr(v) => suffix_string(v.clone(), "--"),
        Arithmetic::PreIncr(v) => prefix_string("++", v.clone()),
        Arithmetic::PreDecr(v) => prefix_string("--", v.clone()),
        Arithmetic::UnaryPlus(x) => wrap_string("+(", arith_string(x), ")"),
        Arithmetic::UnaryMinus(x) => wrap_string("-(", arith_string(x), ")"),
        Arithmetic::LogicalNot(x) => prefix_string("!", arith_string(x)),
        Arithmetic::BitwiseNot(x) => prefix_string("~", arith_string(x)),
        Arithmetic::Ternary(c, l, r) => {
            let head = infix_string(arith_string(c), " ? ", arith_string(l));
            infix_string(head, " : ", arith_string(r))
        },
        Arithmetic::Assign(v, x) => infix_string(v.clone(), " = ", arith_string(x)),
        Arithmetic::Sequence(v) => ariths_string(v, ", "),
    }
}

fn operand_string(w: &Option<TopLevelWord>) -> (r: String)
    ensures
        r@ == operand_text(*w),
    decreases w,
{
    match w {
        Some(x) => top_word_string(x),
        None => String::new(),
    }
}

fn subst_string(s: &ParameterSubstitution) -> (r: String)
    ensures
        r@ == subst_text(*s),
    decreases s,
{
    match s {
        ParameterSubstitution::Command(v) => wrap_string("$(", commands_string(v, "; "), ")"),
        ParameterSubstitution::Len(p) => wrap_string("${#", param_name_string(p), "}"),
        ParameterSubstitution::Arith(a) => match a {
            Some(x) => wrap_string("$((", arith_string(x), "))"),
            None => String::from_str("$(())"),
        },
        ParameterSubstitution::Default(c, p, x) => braced_string(
            param_name_string(p),
            colon_op_string(*c, "-"),
            operand_string(x),
        ),
        ParameterSubstitution::Assign(c, p, x) => braced_string(
            param_name_string(p),
            colon_op_string(*c, "="),
            operand_string(x),
        ),
        ParameterSubstitution::Error(c, p, x) => braced_string(
            param_name_string(p),
            colon_op_string(*c, "?"),
            operand_string(x),
        ),
        ParameterSubstitution::Alternative(c, p, x) => braced_string(
            param_name_string(p),
            colon_op_string(*c, "+"),
            operand_string(x),
        ),
        ParameterSubstitution::RemoveSmallestSuffix(p, x) => braced_string(
            param_name_string(p),
            String::from_str("%"),
            operand_string(x),
        ),
        ParameterSubstitution::RemoveLargestSuffix(p, x) => braced_string(
            param_name_string(p),
            String::from_str("%%"),
            operand_string(x),
        ),
        ParameterSubstitution::RemoveSmallestPrefix(p, x) => braced_string(
            param_name_string(p),
            String::from_str("#"),
            operand_string(x),
        ),
        ParameterSubstitution::RemoveLargestPrefix(p, x) => braced_string(
            param_name_string(p),
            String::from_str("##"),
            operand_string(x),
        ),
    }
}

fn simple_word_string(w: &SimpleWord) -> (r: String)
    ensures
        r@ == simple_word_text(*w),
    decreases w,
{
    match w {
        SimpleWord::Literal(l) => l.clone(),
        SimpleWord::Escaped(e) => prefix_string("\\", e.clone()),
        SimpleWord::Param(p) => param_string(p),
        SimpleWord::Subst(s) => subst_string(s),
        SimpleWord::Star => String::from_str("*"),
        SimpleWord::Question => String::from_str("?"),
        SimpleWord::SquareOpen => String::from_str("["),
        SimpleWord::SquareClose => String::from_str("]"),
        SimpleWord::Tilde => String::from_str("~"),
        SimpleWord::Colon => String::from_str(":"),
    }
}

fn word_string(w: &Word) -> (r: String)
    ensures
        r@ == word_text(*w),
    decreases w,
{
    match w {
        Word::Simple(x) => simple_word_string(x),
        Word::DoubleQuoted(v) => wrap_string("\"", simple_words_string(v, ""), "\""),
        Word::SingleQuoted(s) => wrap_string("'", s.clone(), "'"),
    }
}

fn complex_word_string(w: &ComplexWord) -> (r: String)
    ensures
        r@ == complex_word_text(*w),
    decreases w,
{
    match w {
        ComplexWord::Concat(v) => words_string(v, ""),
        ComplexWord::Single(x) => word_string(x),
    }
}

fn top_word_string(w: &TopLevelWord) -> (r: String)
    ensures
        r@ == top_word_text(*w),
    decreases w,
{
    complex_word_string(&w.0)
}

fn redirect_string(r: &Redirect) -> (s: String)
    ensures
        s@ == redirect_text(*r),
    decreases r,
{
    match r {
        Redirect::Read(fd, x) => infix_string(fd_string(*fd), "< ", top_word_string(x)),
        Redirect::Write(fd, x) => infix_string(fd_string(*fd), "> ", top_word_string(x)),
        Redirect::ReadWrite(fd, x) => infix_string(fd_string(*fd), "<> ", top_word_string(x)),
        Redirect::Append(fd, x) => infix_string(fd_string(*fd), ">> ", top_word_string(x)),
        Redirect::Clobber(fd, x) => infix_string(fd_string(*fd), ">| ", top_word_string(x)),
        Redirect::DupRead(fd, x) => infix_string(fd_string(*fd), "<& ", top_word_string(x)),
        Redirect::DupWrite(fd, x) => infix_string(fd_string(*fd), ">& ", top_word_string(x)),
        Redirect::Heredoc(fd, x) => {
            let head = infix_string(fd_string(*fd), "<<EOF\n", top_word_string(x));
            suffix_string(head, "\nEOF")
        },
    }
}

fn env_prefix_token_string(t: &RedirectOrEnvVar) -> (r: String)
    ensures
        r@ == env_prefix_token_text(*t),
    decreases t,
{
    match t {
        RedirectOrEnvVar::Redirect(x) => redirect_string(x),
        RedirectOrEnvVar::EnvVar(k, v) => infix_string(k.clone(), "=", operand_string(v)),
    }
}

fn cmd_word_token_string(t: &RedirectOrCmdWord) -> (r: String)
    ensures
        r@ == cmd_word_token_text(*t),
    decreases t,
{
    match t {
        RedirectOrCmdWord::Redirect(x) => redirect_string(x),
        RedirectOrCmdWord::CmdWord(x) => top_word_string(x),
    }
}

fn simple_command_string(c: &SimpleCommand) -> (r: String)
    ensures
        r@ == simple_command_text(*c),
    decreases c,
{
    let env = env_prefix_string(&c.redirects_or_env_vars, " ");
    let words = cmd_words_string(&c.redirects_or_cmd_words, " ");
    spaced_string(env, words)
}

fn if_case_string(g: &GuardBodyPair) -> (r: String)
    ensures
        r@ == if_case_text(*g),
    decreases g,
{
    let guard = commands_string(&g.guard, "; ");
    let body = commands_string(&g.body, "\n");
    let head = wrap_string("if ", guard, "; then\n");
    concat_string(head, body)
}

fn arm_string(a: &PatternBodyPair) -> (r: String)
    ensures
        r@ == arm_text(*a),
    decreases a,
{
    let patterns = top_words_string(&a.patterns, "|");
    let body = commands_string(&a.body, "\n");
    let head = infix_string(patterns, ")\n", body);
    suffix_string(head, "\n;;")
}

fn loop_string(keyword: &str, g: &GuardBodyPair) -> (r: String)
    ensures
        r@ == keyword@ + commands_text(g.guard@, "; "@) + "; do\n"@ + commands_text(g.body@, "\n"@)
            + "\ndone"@,
    decreases g,
{
    let guard = commands_string(&g.guard, "; ");
    let body = commands_string(&g.body, "\n");
    let head = wrap_string(keyword, guard, "; do\n");
    let all = concat_string(head, body);
    suffix_string(all, "\ndone")
}

fn kind_string(k: &CompoundCommandKind) -> (r: String)
    ensures
        r@ == kind_text(*k),
    decreases k,
{
    match k {
        CompoundCommandKind::Brace(v) => wrap_string("{ ", commands_string(v, "; "), "; }"),
        CompoundCommandKind::Subshell(v) => wrap_string("( ", commands_string(v, "; "), " )"),
        CompoundCommandKind::While(g) => loop_string("while ", g),
        CompoundCommandKind::Until(g) => loop_string("until ", g),
        CompoundCommandKind::If { conditionals, else_branch } => {
            let cases = if_cases_string(conditionals, "\nel");
            match else_branch {
                Some(v) => {
                    let rest = wrap_string("\nelse\n", commands_string(v, "\n"), "\nfi");
                    concat_string(cases, rest)
                },
                None => suffix_string(cases, "\nfi"),
            }
        },
        CompoundCommandKind::For { var, words, body } => {
            let b = commands_string(body, "\n");
            match words {
                Some(ws) => {
                    let head = infix_string(var.clone(), " in ", top_words_string(ws, " "));
                    let head = wrap_string("for ", head, "; do\n");
                    let all = concat_string(head, b);
                    suffix_string(all, "\ndone")
                },
                None => {
                    let head = wrap_string("for ", var.clone(), "; do\n");
                    let all = concat_string(head, b);
                    suffix_string(all, "\ndone")
                },
            }
        },
        CompoundCommandKind::Case { word, arms } => {
            let head = wrap_string("case ", top_word_string(word), " in ");
            let all = concat_string(head, arms_string(arms, "\n"));
            suffix_string(all, "\nesac")
        },
    }
}

fn compound_string(c: &CompoundCommand) -> (r: String)
    ensures
        r@ == compound_text(*c),
    decreases c,
{
    let kind = kind_string(&c.kind);
    let io = redirects_string(&c.io, " ");
    spaced_string(kind, io)
}

fn pipeable_string(p: &PipeableCommand) -> (r: String)
    ensures
        r@ == pipeable_text(*p),
    decreases p,
{
    match p {
        PipeableCommand::Simple(c) => simple_command_string(c),
        PipeableCommand::Compound(c) => compound_string(c),
        PipeableCommand::FunctionDef(name, body) => {
            let head = wrap_string("function ", name.clone(), "() {\n");
            let all = concat_string(head, compound_string(body));
            suffix_string(all, "\n}")
        },
    }
}

fn listable_string(c: &ListableCommand) -> (r: String)
    ensures
        r@ == listable_text(*c),
    decreases c,
{
    match c {
        ListableCommand::Pipe(bang, v) => {
            let stages = pipeables_string(v, " | ");
            if *bang {
                prefix_string("! ", stages)
            } else {
                stages
            }
        },
        ListableCommand::Single(p) => pipeable_string(p),
    }
}

fn and_or_string(a: &AndOr) -> (r: String)
    ensures
        r@ == and_or_text(*a),
    decreases a,
{
    match a {
        AndOr::And(c) => prefix_string("&& ", listable_string(c)),
        AndOr::Or(c) => prefix_string("|| ", listable_string(c)),
    }
}

fn and_or_list_string(l: &AndOrList) -> (r: String)
    ensures
        r@ == and_or_list_text(*l),
    decreases l,
{
    let first = listable_string(&l.first);
    let rest = and_ors_string(&l.rest, " ");
    spaced_string(first, rest)
}

fn command_string(c: &Command) -> (r: String)
    ensures
        r@ == command_text(*c),
    decreases c,
{
    match c {
        Command::Job(l) => suffix_string(and_or_list_string(l), " &"),
        Command::List(l) => and_or_list_string(l),
    }
}

fn top_command_string(c: &TopLevelCommand) -> (r: String)
    ensures
        r@ == top_command_text(*c),
    decreases c,
{
    command_string(&c.0)
}


/// A node that can be written back as shell text.
pub trait Serializable {
    /// The text of this node.
    spec fn rendered(&self) -> Seq<char>;

    /// Writes this node as shell text.
    fn into_string(&self) -> (r: String)
        ensures
            r@ == self.rendered(),
    ;
}

impl Serializable for String {
    open spec fn rendered(&self) -> Seq<char> {
        self@
    }

    fn into_string(&self) -> (r: String) {
        self.clone()
    }
}

impl<B: Serializable> Serializable for Box<B> {
    open spec fn rendered(&self) -> Seq<char> {
        (**self).rendered()
    }

    fn into_string(&self) -> (r: String) {
        (**self).into_string()
    }
}

impl Serializable for TopLevelCommand {
    open spec fn rendered(&self) -> Seq<char> {
        top_command_text(*self)
    }

    fn into_string(&self) -> (r: String) {
        top_command_string(self)
    }
}

impl Serializable for TopLevelWord {
    open spec fn rendered(&self) -> Seq<char> {
        top_word_text(*self)
    }

    fn into_string(&self) -> (r: String) {
        top_word_string(self)
    }
}

impl Serializable for Command {
    open spec fn rendered(&self) -> Seq<char> {
        command_text(*self)
    }

    fn into_string(&self) -> (r: String) {
        command_string(self)
    }
}

impl Serializable for SimpleWord {
    open spec fn rendered(&self) -> Seq<char> {
        simple_word_text(*self)
    }

    fn into_string(&self) -> (r: String) {
        simple_word_string(self)
    }
}

impl Serializable for ParameterSubstitution {
    open spec fn rendered(&self) -> Seq<char> {
        subst_text(*self)
    }

    fn into_string(&self) -> (r: String) {
        subst_string(self)
    }
}

impl Serializable for Arithmetic {
    open spec fn rendered(&self) -> Seq<char> {
        arith_text(*self)
    }

    fn into_string(&self) -> (r: String) {
        arith_string(self)
    }
}

impl Serializable for AndOr {
    open spec fn rendered(&self) -> Seq<char> {
        and_or_text(*self)
    }

    fn into_string(&self) -> (r: String) {
        and_or_string(self)
    }
}

impl Serializable for Parameter {
    open spec fn rendered(&self) -> Seq<char> {
        param_text(*self)
    }

    fn into_string(&self) -> (r: String) {
        param_string(self)
    }
}

impl Serializable for ComplexWord {
    open spec fn rendered(&self) -> Seq<char> {
        complex_word_text(*self)
    }

    fn into_string(&self) -> (r: String) {
        complex_word_string(self)
    }
}

impl Serializable for Word {
    open spec fn rendered(&self) -> Seq<char> {
        word_text(*self)
    }

    fn into_string(&self) -> (r: String) {
        word_string(self)
    }
}

impl Serializable for CompoundCommandKind {
    open spec fn rendered(&self) -> Seq<char> {
        kind_text(*self)
    }

    fn into_string(&self) -> (r: String) {
        kind_string(self)
    }
}

impl Serializable for PatternBodyPair {
    open spec fn rendered(&self) -> Seq<char> {
        arm_text(*self)
    }

    fn into_string(&self) -> (r: String) {
        arm_string(self)
    }
}

impl Serializable for CompoundCommand {
    open spec fn rendered(&self) -> Seq<char> {
        compound_text(*self)
    }

    fn into_string(&self) -> (r: String) {
        compound_string(self)
    }
}

impl Serializable for SimpleCommand {
    open spec fn rendered(&self) -> Seq<char> {
        simple_command_text(*self)
    }

    fn into_string(&self) -> (r: String) {
        simple_command_string(self)
    }
}

impl Serializable for ListableCommand {
    open spec fn rendered(&self) -> Seq<char> {
        listable_text(*self)
    }

    fn into_string(&self) -> (r: String) {
        listable_string(self)
    }
}

impl Serializable for PipeableCommand {
    open spec fn rendered(&self) -> Seq<char> {
        pipeable_text(*self)
    }

    fn into_string(&self) -> (r: String) {
        pipeable_string(self)
    }
}

impl Serializable for AndOrList {
    open spec fn rendered(&self) -> Seq<char> {
        and_or_list_text(*self)
    }

    fn into_string(&self) -> (r: String) {
        and_or_list_string(self)
    }
}

impl Serializable for Redirect {
    open spec fn rendered(&self) -> Seq<char> {
        redirect_text(*self)
    }

    fn into_string(&self) -> (r: String) {
        redirect_string(self)
    }
}

impl Serializable for RedirectOrCmdWord {
    open spec fn rendered(&self) -> Seq<char> {
        cmd_word_token_text(*self)
    }

    fn into_string(&self) -> (r: String) {
        cmd_word_token_string(self)
    }
}

impl Serializable for RedirectOrEnvVar {
    open spec fn rendered(&self) -> Seq<char> {
        env_prefix_token_text(*self)
    }

    fn into_string(&self) -> (r: String) {
        env_prefix_token_string(self)
    }
}

} // verus!
