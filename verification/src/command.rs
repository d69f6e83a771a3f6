//! The commands of the client and how an invocation's arguments select one.
//!
//! The first argument after the program's name is the operator. It is matched
//! without regard to case against the names of the seven operations; the
//! arguments that follow it are checked against the operation's arity.

use crate::text::{lowercase, same_text, text_of, texts, to_lowercase};
use vstd::prelude::*;

verus! {

/// One of the operations that the remote service offers.
#[derive(Clone, Copy, Debug, PartialEq, Eq, Structural)]
pub enum Operation {
    GenerateKey,
    CheckKey,
    Upload,
    Download,
    Search,
    Delete,
    List,
}

/// Why an invocation selects no operation.
#[derive(Clone, Debug, PartialEq, Eq)]
pub enum Reason {
    /// No operator was given.
    MissingOperator,
    /// The operator, given here as it was typed, names no operation.
    UnknownOperator { operator: String },
    /// The operation was given fewer arguments than it needs.
    MissingArguments { operation: Operation },
}

/// What an invocation asks for.
#[derive(Clone, Debug, PartialEq, Eq)]
#[allow(inconsistent_fields)]
pub enum Command {
    GenerateKey,
    /// Checks `key`, or the stored credential where no key is given.
    CheckKey { key: Option<String> },
    Upload { source_path: String, target_name: String },
    /// Fetches `file_name` and stores it under `target_name`, or under its
    /// own name where no target is given.
    Download { file_name: String, target_name: Option<String> },
    Search { query: String },
    Delete { file_name: String },
    List,
    Invalid { reason: Reason },
}

/// The mathematical value of a [`Reason`].
pub enum ReasonView {
    MissingOperator,
    UnknownOperator { operator: Seq<char> },
    MissingArguments { operation: Operation },
}

/// The mathematical value of a [`Command`].
#[allow(inconsistent_fields)]
pub enum CommandView {
    GenerateKey,
    CheckKey { key: Option<Seq<char>> },
    Upload { source_path: Seq<char>, target_name: Seq<char> },
    Download { file_name: Seq<char>, target_name: Option<Seq<char>> },
    Search { query: Seq<char> },
    Delete { file_name: Seq<char> },
    List,
    Invalid { reason: ReasonView },
}

impl View for Reason {
    type V = ReasonView;

    open spec fn view(&self) -> ReasonView {
        match *self {
            Reason::MissingOperator => ReasonView::MissingOperator,
            Reason::UnknownOperator { operator } => ReasonView::UnknownOperator {
                operator: operator@,
            },
            Reason::MissingArguments { operation } => ReasonView::MissingArguments { operation },
        }
    }
}

impl View for Command {
    type V = CommandView;

    open spec fn view(&self) -> CommandView {
        match *self {
            Command::GenerateKey => CommandView::GenerateKey,
            Command::CheckKey { key } => CommandView::CheckKey { key: text_of(key) },
            Command::Upload { source_path, target_name } => CommandView::Upload {
                source_path: source_path@,
                target_name: target_name@,
            },
            Command::Download { file_name, target_name } => CommandView::Download {
                file_name: file_name@,
                target_name: text_of(target_name),
            },
            Command::Search { query } => CommandView::Search { query: query@ },
            Command::Delete { file_name } => CommandView::Delete { file_name: file_name@ },
            Command::List => CommandView::List,
            Command::Invalid { reason } => CommandView::Invalid { reason: reason@ },
        }
    }
}

impl CommandView {
    /// The operation that the command runs, if it runs one.
    pub open spec fn operation(self) -> Option<Operation> {
        match self {
            CommandView::GenerateKey => Some(Operation::GenerateKey),
            CommandView::CheckKey { .. } => Some(Operation::CheckKey),
            CommandView::Upload { .. } => Some(Operation::Upload),
            CommandView::Download { .. } => Some(Operation::Download),
            CommandView::Search { .. } => Some(Operation::Search),
            CommandView::Delete { .. } => Some(Operation::Delete),
            CommandView::List => Some(Operation::List),
            CommandView::Invalid { .. } => None,
        }
    }
}

/// The operator that selects `operation`, in lower case.
pub open spec fn operator_name(operation: Operation) -> Seq<char> {
    match operation {
        Operation::GenerateKey => "genkey"@,
        Operation::CheckKey => "checkkey"@,
        Operation::Upload => "upload"@,
        Operation::Download => "download"@,
        Operation::Search => "search"@,
        Operation::Delete => "delete"@,
        Operation::List => "list"@,
    }
}

/// The operation that the lower-case operator `operator` selects.
pub open spec fn operation_named(operator: Seq<char>) -> Option<Operation> {
    if operator == "genkey"@ {
        Some(Operation::GenerateKey)
    } else if operator == "checkkey"@ {
        Some(Operation::CheckKey)
    } else if operator == "upload"@ {
        Some(Operation::Upload)
    } else if operator == "download"@ {
        Some(Operation::Download)
    } else if operator == "search"@ {
        Some(Operation::Search)
    } else if operator == "delete"@ {
        Some(Operation::Delete)
    } else if operator == "list"@ {
        Some(Operation::List)
    } else {
        None
    }
}

/// How many arguments `operation` needs after the operator.
pub open spec fn required_arguments(operation: Operation) -> nat {
    match operation {
        Operation::Upload => 2,
        Operation::Download | Operation::Search | Operation::Delete => 1,
        Operation::GenerateKey | Operation::CheckKey | Operation::List => 0,
    }
}

/// The command that `operation` makes of arguments that meet its arity.
/// `args` holds the program's name, the operator and what follows.
pub open spec fn command_with(operation: Operation, args: Seq<Seq<char>>) -> CommandView {
    match operation {
        Operation::GenerateKey => CommandView::GenerateKey,
        Operation::CheckKey => CommandView::CheckKey {
            key: if args.len() < 3 {
                None
            } else {
                Some(args[2])
            },
        },
        Operation::Upload => CommandView::Upload { source_path: args[2], target_name: args[3] },
        Operation::Download => CommandView::Download { file_name: args[2], target_name: None },
        Operation::Search => CommandView::Search { query: args[2] },
        Operation::Delete => CommandView::Delete { file_name: args[2] },
        Operation::List => CommandView::List,
    }
}

/// The command that `args` select, where `operator` is the operator in lower
/// case.
pub open spec fn command_for(operator: Seq<char>, args: Seq<Seq<char>>) -> CommandView {
    if args.len() < 2 {
        CommandView::Invalid { reason: ReasonView::MissingOperator }
    } else {
        match operation_named(operator) {
            None => CommandView::Invalid {
                reason: ReasonView::UnknownOperator { operator: args[1] },
            },
            Some(operation) => if args.len() < 2 + required_arguments(operation) {
                CommandView::Invalid { reason: ReasonView::MissingArguments { operation } }
            } else {
                command_with(operation, args)
            },
        }
    }
}

/// The command that `args` select: the program's name, the operator, and the
/// operator's arguments.
pub open spec fn command_of(args: Seq<Seq<char>>) -> CommandView {
    if args.len() < 2 {
        CommandView::Invalid { reason: ReasonView::MissingOperator }
    } else {
        command_for(lowercase(args[1]), args)
    }
}

impl Operation {
    /// The operator that selects this operation.
    pub fn name(self) -> (name: &'static str)
        ensures
            name@ == operator_name(self),
    {
        match self {
            Operation::GenerateKey => "genkey",
            Operation::CheckKey => "checkkey",
            Operation::Upload => "upload",
            Operation::Download => "download",
            Operation::Search => "search",
            Operation::Delete => "delete",
            Operation::List => "list",
        }
    }

    /// The operation that a lower-case operator selects.
    pub fn named(operator: &str) -> (operation: Option<Operation>)
        ensures
            operation == operation_named(operator@),
    {
        if same_text(operator, "genkey") {
            Some(Operation::GenerateKey)
        } else if same_text(operator, "checkkey") {
            Some(Operation::CheckKey)
        } else if same_text(operator, "upload") {
            Some(Operation::Upload)
        } else if same_text(operator, "download") {
            Some(Operation::Download)
        } else if same_text(operator, "search") {
            Some(Operation::Search)
        } else if same_text(operator, "delete") {
            Some(Operation::Delete)
        } else if same_text(operator, "list") {
            Some(Operation::List)
        } else {
            None
        }
    }

    /// How many arguments this operation needs after the operator.
    pub fn arity(self) -> (count: usize)
        ensures
            count == required_arguments(self),
    {
        match self {
            Operation::Upload => 2,
            Operation::Download | Operation::Search | Operation::Delete => 1,
            Operation::GenerateKey | Operation::CheckKey | Operation::List => 0,
        }
    }
}

impl Command {
    /// The operation that the command runs, if it runs one.
    pub fn operation(&self) -> (operation: Option<Operation>)
        ensures
            operation == self@.operation(),
    {
        match self {
            Command::GenerateKey => Some(Operation::GenerateKey),
            Command::CheckKey { .. } => Some(Operation::CheckKey),
            Command::Upload { .. } => Some(Operation::Upload),
            Command::Download { .. } => Some(Operation::Download),
            Command::Search { .. } => Some(Operation::Search),
            Command::Delete { .. } => Some(Operation::Delete),
            Command::List => Some(Operation::List),
            Command::Invalid { .. } => None,
        }
    }
}

/// Builds the command of `operation` from arguments that meet its arity.
fn build(operation: Operation, args: &[String]) -> (command: Command)
    requires
        args@.len() >= 2 + required_arguments(operation),
    ensures
        command@ == command_with(operation, texts(args@)),
{
    match operation {
        Operation::GenerateKey => Command::GenerateKey,
        Operation::CheckKey => {
            let key = if args.len() < 3 {
                None
            } else {
                Some(args[2].clone())
            };
            Command::CheckKey { key }
        },
        Operation::Upload => Command::Upload {
            source_path: args[2].clone(),
            target_name: args[3].clone(),
        },
        Operation::Download => Command::Download { file_name: args[2].clone(), target_name: None },
        Operation::Search => Command::Search { query: args[2].clone() },
        Operation::Delete => Command::Delete { file_name: args[2].clone() },
        Operation::List => Command::List,
    }
}

/// Selects the command of `args`, given the operator in lower case.
///
/// An operator that names no operation, or too few arguments after it, gives
/// [`Command::Invalid`] with the reason.
pub fn classify(operator: &str, args: &[String]) -> (command: Command)
    ensures
        command@ == command_for(operator@, texts(args@)),
{
    if args.len() < 2 {
        return Command::Invalid { reason: Reason::MissingOperator };
    }
    match Operation::named(operator) {
        None => Command::Invalid { reason: Reason::UnknownOperator { operator: args[1].clone() } },
        Some(operation) => {
            if args.len() - 2 < operation.arity() {
                Command::Invalid { reason: Reason::MissingArguments { operation } }
            } else {
                build(operation, args)
            }
        },
    }
}

/// Selects the command of an invocation. `args` holds the program's name,
/// then the operator, then the operator's arguments; the operator is matched
/// in its lower-case form.
pub fn parse_command(args: &[String]) -> (command: Command)
    ensures
        command@ == command_of(texts(args@)),
{
    if args.len() < 2 {
        return Command::Invalid { reason: Reason::MissingOperator };
    }
    let operator = to_lowercase(args[1].as_str());
    classify(operator.as_str(), args)
}

} // verus!
