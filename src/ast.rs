//! The shell syntax tree that the printer and the rewrite pass work on.
//!
//! It follows the shape that a POSIX shell parser produces for one top-level
//! statement: a command is a job or a list, a list is an and/or chain of
//! pipelines, a pipeline stage is a simple command, a compound command or a
//! function definition, and words are built from literals, quotes, globs,
//! parameters and parameter substitutions.
use vstd::prelude::*;

verus! {

/// A parameter: one of the special ones, a positional one, or a named variable.
#[derive(Debug, PartialEq, Eq)]
pub enum Parameter {
    At,
    Star,
    Pound,
    Question,
    Dash,
    Dollar,
    Bang,
    Positional(u32),
    Var(String),
}

/// A `${...}`, `$(...)` or `$((...))` form. The flag of the first four
/// operator forms is the colon: with it, a null value counts as unset.
#[derive(Debug, PartialEq, Eq)]
pub enum ParameterSubstitution {
    Command(Vec<TopLevelCommand>),
    Len(Parameter),
    Arith(Option<Arithmetic>),
    Default(bool, Parameter, Option<TopLevelWord>),
    Assign(bool, Parameter, Option<TopLevelWord>),
    Error(bool, Parameter, Option<TopLevelWord>),
    Alternative(bool, Parameter, Option<TopLevelWord>),
    RemoveSmallestSuffix(Parameter, Option<TopLevelWord>),
    RemoveLargestSuffix(Parameter, Option<TopLevelWord>),
    RemoveSmallestPrefix(Parameter, Option<TopLevelWord>),
    RemoveLargestPrefix(Parameter, Option<TopLevelWord>),
}

/// The smallest pieces of a word.
#[derive(Debug, PartialEq, Eq)]
pub enum SimpleWord {
    Literal(String),
    Escaped(String),
    Param(Parameter),
    Subst(Box<ParameterSubstitution>),
    Star,
    Question,
    SquareOpen,
    SquareClose,
    Tilde,
    Colon,
}

/// A word, unquoted, in double quotes, or in single quotes (the text between them).
#[derive(Debug, PartialEq, Eq)]
pub enum Word {
    Simple(SimpleWord),
    DoubleQuoted(Vec<SimpleWord>),
    SingleQuoted(String),
}

/// A word made of one part or of several parts written next to each other.
#[derive(Debug, PartialEq, Eq)]
pub enum ComplexWord {
    Concat(Vec<Word>),
    Single(Word),
}

/// A complete shell word.
#[derive(Debug, PartialEq, Eq)]
pub struct TopLevelWord(pub ComplexWord);

/// A redirection, with the file descriptor written before its operator, if any.
#[derive(Debug, PartialEq, Eq)]
pub enum Redirect {
    Read(Option<u16>, TopLevelWord),
    Write(Option<u16>, TopLevelWord),
    ReadWrite(Option<u16>, TopLevelWord),
    Append(Option<u16>, TopLevelWord),
    Clobber(Option<u16>, TopLevelWord),
    Heredoc(Option<u16>, TopLevelWord),
    DupRead(Option<u16>, TopLevelWord),
    DupWrite(Option<u16>, TopLevelWord),
}

/// A guard and the body that runs when it succeeds (`while`, `until`, `if`).
#[derive(Debug, PartialEq, Eq)]
pub struct GuardBodyPair {
    pub guard: Vec<TopLevelCommand>,
    pub body: Vec<TopLevelCommand>,
}

/// One arm of a `case` command.
#[derive(Debug, PartialEq, Eq)]
pub struct PatternBodyPair {
    pub patterns: Vec<TopLevelWord>,
    pub body: Vec<TopLevelCommand>,
}

/// A statement run in the background (`&`) or in the foreground.
#[derive(Debug, PartialEq, Eq)]
pub enum Command {
    Job(AndOrList),
    List(AndOrList),
}

/// One follower of an and/or chain.
#[derive(Debug, PartialEq, Eq)]
pub enum AndOr {
    And(ListableCommand),
    Or(ListableCommand),
}

/// A pipeline followed by `&&` and `||` followers.
#[derive(Debug, PartialEq, Eq)]
pub struct AndOrList {
    pub first: ListableCommand,
    pub rest: Vec<AndOr>,
}

/// A pipeline (the flag is a leading `!`) or a single command.
#[derive(Debug, PartialEq, Eq)]
pub enum ListableCommand {
    Pipe(bool, Vec<PipeableCommand>),
    Single(PipeableCommand),
}

/// What can stand in a pipeline.
#[derive(Debug, PartialEq, Eq)]
pub enum PipeableCommand {
    Simple(SimpleCommand),
    Compound(CompoundCommand),
    FunctionDef(String, CompoundCommand),
}

/// A compound command with the redirections that apply to all of it.
#[derive(Debug, PartialEq, Eq)]
pub struct CompoundCommand {
    pub kind: CompoundCommandKind,
    pub io: Vec<Redirect>,
}

/// The compound commands.
#[derive(Debug, PartialEq, Eq)]
pub enum CompoundCommandKind {
    Brace(Vec<TopLevelCommand>),
    Subshell(Vec<TopLevelCommand>),
    While(GuardBodyPair),
    Until(GuardBodyPair),
    If { conditionals: Vec<GuardBodyPair>, else_branch: Option<Vec<TopLevelCommand>> },
    For { var: String, words: Option<Vec<TopLevelWord>>, body: Vec<TopLevelCommand> },
    Case { word: TopLevelWord, arms: Vec<PatternBodyPair> },
}

/// What may stand before the command word: a redirection or an assignment.
#[derive(Debug, PartialEq, Eq)]
pub enum RedirectOrEnvVar {
    Redirect(Redirect),
    EnvVar(String, Option<TopLevelWord>),
}

/// What may stand from the command word on: a redirection or a word.
#[derive(Debug, PartialEq, Eq)]
pub enum RedirectOrCmdWord {
    Redirect(Redirect),
    CmdWord(TopLevelWord),
}

/// A command word with its arguments, assignments and redirections.
#[derive(Debug, PartialEq, Eq)]
pub struct SimpleCommand {
    pub redirects_or_env_vars: Vec<RedirectOrEnvVar>,
    pub redirects_or_cmd_words: Vec<RedirectOrCmdWord>,
}

/// An arithmetic expression as written inside `$((...))`.
#[derive(Debug, PartialEq, Eq)]
pub enum Arithmetic {
    Var(String),
    Literal(isize),
    Pow(Box<Arithmetic>, Box<Arithmetic>),
    PostIncr(String),
    PostDecr(String),
    PreIncr(String),
    PreDecr(String),
    UnaryPlus(Box<Arithmetic>),
    UnaryMinus(Box<Arithmetic>),
    LogicalNot(Box<Arithmetic>),
    BitwiseNot(Box<Arithmetic>),
    Mult(Box<Arithmetic>, Box<Arithmetic>),
    Div(Box<Arithmetic>, Box<Arithmetic>),
    Modulo(Box<Arithmetic>, Box<Arithmetic>),
    Add(Box<Arithmetic>, Box<Arithmetic>),
    Sub(Box<Arithmetic>, Box<Arithmetic>),
    ShiftLeft(Box<Arithmetic>, Box<Arithmetic>),
    ShiftRight(Box<Arithmetic>, Box<Arithmetic>),
    Less(Box<Arithmetic>, Box<Arithmetic>),
    LessEq(Box<Arithmetic>, Box<Arithmetic>),
    Great(Box<Arithmetic>, Box<Arithmetic>),
    GreatEq(Box<Arithmetic>, Box<Arithmetic>),
    Eq(Box<Arithmetic>, Box<Arithmetic>),
    NotEq(Box<Arithmetic>, Box<Arithmetic>),
    BitwiseAnd(Box<Arithmetic>, Box<Arithmetic>),
    BitwiseXor(Box<Arithmetic>, Box<Arithmetic>),
    BitwiseOr(Box<Arithmetic>, Box<Arithmetic>),
    LogicalAnd(Box<Arithmetic>, Box<Arithmetic>),
    LogicalOr(Box<Arithmetic>, Box<Arithmetic>),
    Ternary(Box<Arithmetic>, Box<Arithmetic>, Box<Arithmetic>),
    Assign(String, Box<Arithmetic>),
    Sequence(Vec<Arithmetic>),
}

/// One top-level statement of a script.
#[derive(Debug, PartialEq, Eq)]
pub struct TopLevelCommand(pub Command);

/// The command word that is the single literal `s`.
pub fn command_word(s: String) -> (r: RedirectOrCmdWord)
    ensures
        r == RedirectOrCmdWord::CmdWord(TopLevelWord(ComplexWord::Single(Word::Simple(SimpleWord::Literal(s))))),
{
    RedirectOrCmdWord::CmdWord(TopLevelWord(ComplexWord::Single(Word::Simple(SimpleWord::Literal(s)))))
}

} // verus!
