//! The command that the overlay runs: its arguments, taken from the
//! overlay's own command line, and the environment handed on to it.

use vstd::prelude::*;
use vstd::string::*;

verus! {

/// The token that parts the overlay's options from the command: two hyphens.
pub open spec fn separator() -> Seq<char> {
    seq!['-', '-']
}

/// The arguments without the first separator among them; unchanged where
/// there is none. Later separators belong to the command and stay.
pub open spec fn without_first_separator(args: Seq<Seq<char>>) -> Seq<Seq<char>>
    decreases args.len(),
{
    if args.len() == 0 {
        args
    } else if args[0] == separator() {
        args.drop_first()
    } else {
        seq![args[0]] + without_first_separator(args.drop_first())
    }
}

/// The command named by a process's arguments: what follows the program's
/// own name, without the first separator.
pub open spec fn command_of(arguments: Seq<Seq<char>>) -> Seq<Seq<char>> {
    if arguments.len() == 0 {
        arguments
    } else {
        without_first_separator(arguments.drop_first())
    }
}

/// One variable as the child's environment block holds it: the key, an
/// equals sign, the value.
pub open spec fn entry_of(key: Seq<char>, value: Seq<char>) -> Seq<char> {
    key + seq!['='] + value
}

/// The environment block for a list of variables: one entry for each, in
/// the order given.
pub open spec fn entries_of(variables: Seq<(Seq<char>, Seq<char>)>) -> Seq<Seq<char>> {
    Seq::new(variables.len(), |i: int| entry_of(variables[i].0, variables[i].1))
}

/// Where no argument is a separator, nothing is taken out.
pub proof fn lemma_no_separator_keeps_all(args: Seq<Seq<char>>)
    requires
        forall|j: int| 0 <= j < args.len() ==> args[j] != separator(),
    ensures
        without_first_separator(args) == args,
    decreases args.len(),
{
    if args.len() > 0 {
        lemma_no_separator_keeps_all(args.drop_first());
        assert(seq![args[0]] + args.drop_first() =~= args);
    }
}

/// Where the first separator stands at `index`, exactly that argument is
/// taken out and the others keep their order.
pub proof fn lemma_first_separator_removed(args: Seq<Seq<char>>, index: int)
    requires
        0 <= index < args.len(),
        args[index] == separator(),
        forall|j: int| 0 <= j < index ==> args[j] != separator(),
    ensures
        without_first_separator(args) == args.remove(index),
    decreases args.len(),
{
    if index == 0 {
        assert(args.drop_first() =~= args.remove(0));
    } else {
        let rest = args.drop_first();
        assert forall|j: int| 0 <= j < index - 1 implies rest[j] != separator() by {
            assert(rest[j] == args[j + 1]);
        }
        lemma_first_separator_removed(rest, index - 1);
        assert(seq![args[0]] + rest.remove(index - 1) =~= args.remove(index));
    }
}

/// Taking out the first separator is taking out the first occurrence of
/// that value.
pub proof fn lemma_strip_is_remove_value(args: Seq<Seq<char>>)
    ensures
        without_first_separator(args) == args.remove_value(separator()),
{
    args.index_of_first_ensures(separator());
    match args.index_of_first(separator()) {
        Some(index) => {
            lemma_first_separator_removed(args, index);
        },
        None => {
            lemma_no_separator_keeps_all(args);
        },
    }
}

/// The arguments of the command, from the arguments that the overlay itself
/// was started with: the overlay's name is dropped, and so is the first
/// `--` among the rest.
pub fn command_arguments(arguments: Vec<String>) -> (argv: Vec<String>)
    ensures
        argv.deep_view() == command_of(arguments.deep_view()),
{
    let mut argv = arguments;
    if argv.len() == 0 {
        return argv;
    }
    argv.remove(0);
    let ghost tail = argv.deep_view();
    assert(tail =~= arguments.deep_view().drop_first());
    let marker = String::from_str("--");
    proof {
        reveal_strlit("--");
        assert(marker@ =~= separator());
    }
    let mut i: usize = 0;
    while i < argv.len()
        invariant
            i <= argv.len(),
            argv.deep_view() == tail,
            arguments.deep_view().len() > 0,
            tail == arguments.deep_view().drop_first(),
            marker@ == separator(),
            forall|j: int| 0 <= j < i ==> tail[j] != separator(),
        decreases argv.len() - i,
    {
        if argv[i] == marker {
            argv.remove(i);
            proof {
                lemma_first_separator_removed(tail, i as int);
                assert(argv.deep_view() =~= tail.remove(i as int));
            }
            return argv;
        }
        i += 1;
    }
    proof {
        lemma_no_separator_keeps_all(tail);
    }
    argv
}

/// One entry of the environment block: `key=value`, both as given.
pub fn environment_entry(key: &String, value: &String) -> (entry: String)
    ensures
        entry@ == entry_of(key@, value@),
{
    let mut entry = key.clone();
    entry.append("=");
    entry.append(value.as_str());
    proof {
        reveal_strlit("=");
        assert("="@ =~= seq!['=']);
    }
    entry
}

/// The environment block for the variables of the overlay's own
/// environment: every variable, in order, none changed or left out.
pub fn environment_entries(variables: &Vec<(String, String)>) -> (entries: Vec<String>)
    ensures
        entries.deep_view() == entries_of(variables.deep_view()),
{
    let mut entries: Vec<String> = Vec::new();
    let mut i: usize = 0;
    while i < variables.len()
        invariant
            i <= variables.len(),
            entries.len() == i,
            forall|j: int|
                0 <= j < i ==> (#[trigger] entries[j])@ == entry_of(
                    variables[j].0@,
                    variables[j].1@,
                ),
        decreases variables.len() - i,
    {
        let entry = environment_entry(&variables[i].0, &variables[i].1);
        entries.push(entry);
        i += 1;
    }
    assert(entries.deep_view() =~= entries_of(variables.deep_view()));
    entries
}

/// A command as mathematical values: its arguments and its environment
/// block, each a sequence of texts.
pub struct CommandSpecView {
    pub argv: Seq<Seq<char>>,
    pub env: Seq<Seq<char>>,
}

/// The command that the overlay runs once the fade is over: its arguments,
/// the program first, and the environment block that the child is given.
/// Fixed once it is made.
#[derive(Clone, Debug, PartialEq, Eq)]
pub struct CommandSpec {
    argv: Vec<String>,
    env: Vec<String>,
}

impl View for CommandSpec {
    type V = CommandSpecView;

    closed spec fn view(&self) -> CommandSpecView {
        CommandSpecView { argv: self.argv.deep_view(), env: self.env.deep_view() }
    }
}

impl CommandSpec {
    /// A command with these arguments and this environment block, both
    /// taken as they are.
    pub fn new(argv: Vec<String>, env: Vec<String>) -> (command: CommandSpec)
        ensures
            command@.argv == argv.deep_view(),
            command@.env == env.deep_view(),
    {
        CommandSpec { argv, env }
    }

    /// The command that the overlay was asked to run: the arguments it was
    /// started with, less its own name and the first `--`, and its whole
    /// environment as `key=value` entries.
    pub fn from_command_line(arguments: Vec<String>, variables: &Vec<(String, String)>) -> (command:
        CommandSpec)
        ensures
            command@.argv == command_of(arguments.deep_view()),
            command@.env == entries_of(variables.deep_view()),
    {
        let argv = command_arguments(arguments);
        let env = environment_entries(variables);
        CommandSpec { argv, env }
    }

    /// The arguments, the program first.
    pub fn argv(&self) -> (argv: &Vec<String>)
        ensures
            argv.deep_view() == self@.argv,
    {
        &self.argv
    }

    /// The environment block.
    pub fn env(&self) -> (env: &Vec<String>)
        ensures
            env.deep_view() == self@.env,
    {
        &self.env
    }

    /// Whether there is nothing to run: no argument at all.
    pub fn is_empty(&self) -> (empty: bool)
        ensures
            empty == (self@.argv.len() == 0),
    {
        self.argv.len() == 0
    }

    /// The program to run, which is the first argument; `None` where there
    /// is nothing to run.
    pub fn program(&self) -> (program: Option<&String>)
        ensures
            self@.argv.len() == 0 ==> program is None,
            self@.argv.len() > 0 ==> program is Some && program->0@ == self@.argv[0],
    {
        if self.argv.len() == 0 {
            None
        } else {
            Some(&self.argv[0])
        }
    }
}

} // verus!
