//! Which invocations of the wrapped tool build anything.
//!
//! The test is on single words, not on the tool's grammar: a word that names
//! a command counts as that command wherever it stands, also as the value of
//! a flag before it.

use crate::text::str_eq;
use vstd::prelude::*;
use vstd::string::StrSliceExecFns;

verus! {

/// Whether `arg` is one of the words after which nothing is built: the help,
/// version and list flags, and the commands that only inform or talk to the
/// registry.
pub open spec fn is_non_build_token(arg: Seq<char>) -> bool {
    ||| arg == "--help"@
    ||| arg == "-h"@
    ||| arg == "--version"@
    ||| arg == "-V"@
    ||| arg == "--list"@
    ||| arg == "help"@
    ||| arg == "version"@
    ||| arg == "search"@
    ||| arg == "login"@
    ||| arg == "logout"@
    ||| arg == "owner"@
    ||| arg == "yank"@
    ||| arg == "publish"@
    ||| arg == "cache"@
}

/// Whether `command` is one of the commands that only talk to the registry.
pub open spec fn is_registry_command(command: Seq<char>) -> bool {
    ||| command == "search"@
    ||| command == "login"@
    ||| command == "logout"@
    ||| command == "owner"@
    ||| command == "yank"@
    ||| command == "publish"@
}

/// Whether `arg` is a flag: whether it starts with a hyphen.
pub open spec fn is_flag(arg: Seq<char>) -> bool {
    arg.len() > 0 && arg[0] == '-'
}

/// The subcommand among `args`: the first that is no flag.
pub open spec fn subcommand(args: Seq<Seq<char>>) -> Option<Seq<char>>
    decreases args.len(),
{
    if args.len() == 0 {
        None
    } else if !is_flag(args[0]) {
        Some(args[0])
    } else {
        subcommand(args.drop_first())
    }
}

/// Whether no word of `args` is a non-build token.
pub open spec fn all_build_tokens(args: Seq<Seq<char>>) -> bool {
    forall|i: int| 0 <= i < args.len() ==> !is_non_build_token(#[trigger] args[i])
}

/// Whether an invocation with `args` needs its own target directory: there
/// are arguments, none of them is a non-build token, and the subcommand is no
/// registry command.
pub open spec fn needs_target_dir(args: Seq<Seq<char>>) -> bool {
    &&& args.len() > 0
    &&& all_build_tokens(args)
    &&& !(subcommand(args) matches Some(command) && is_registry_command(command))
}

/// Whether `arg` is a non-build token.
pub fn is_non_build_arg(arg: &str) -> (found: bool)
    ensures
        found == is_non_build_token(arg@),
{
    str_eq(arg, "--help") || str_eq(arg, "-h") || str_eq(arg, "--version") || str_eq(arg, "-V")
        || str_eq(arg, "--list") || str_eq(arg, "help") || str_eq(arg, "version") || str_eq(
        arg,
        "search",
    ) || str_eq(arg, "login") || str_eq(arg, "logout") || str_eq(arg, "owner") || str_eq(
        arg,
        "yank",
    ) || str_eq(arg, "publish") || str_eq(arg, "cache")
}

/// Whether `command` only talks to the registry.
pub fn is_registry_arg(command: &str) -> (found: bool)
    ensures
        found == is_registry_command(command@),
{
    str_eq(command, "search") || str_eq(command, "login") || str_eq(command, "logout") || str_eq(
        command,
        "owner",
    ) || str_eq(command, "yank") || str_eq(command, "publish")
}

/// Whether `arg` starts with a hyphen.
pub fn starts_with_hyphen(arg: &str) -> (flag: bool)
    ensures
        flag == is_flag(arg@),
{
    !arg.is_empty() && arg.get_char(0) == '-'
}

/// The subcommand is one of the arguments.
pub proof fn lemma_subcommand_is_an_argument(args: Seq<Seq<char>>)
    ensures
        subcommand(args) matches Some(command) ==> exists|i: int|
            0 <= i < args.len() && #[trigger] args[i] == command,
    decreases args.len(),
{
    if args.len() > 0 && is_flag(args[0]) {
        let rest = args.drop_first();
        lemma_subcommand_is_an_argument(rest);
        if let Some(command) = subcommand(rest) {
            let i = choose|i: int| 0 <= i < rest.len() && #[trigger] rest[i] == command;
            assert(args[i + 1] == command);
        }
    } else if args.len() > 0 {
        assert(args[0] == subcommand(args)->0);
    }
}

/// The rule on the subcommand excludes nothing that the rule on single words
/// lets through, since every registry command is a non-build token: the
/// arguments need a target directory exactly when there are some and none is
/// a non-build token.
pub proof fn lemma_needs_target_dir_by_tokens(args: Seq<Seq<char>>)
    ensures
        needs_target_dir(args) <==> args.len() > 0 && all_build_tokens(args),
{
    if args.len() > 0 && all_build_tokens(args) {
        lemma_subcommand_is_an_argument(args);
        if let Some(command) = subcommand(args) {
            let i = choose|i: int| 0 <= i < args.len() && #[trigger] args[i] == command;
            assert(!is_non_build_token(args[i]));
        }
    }
}

/// A non-build token among the arguments settles the matter wherever it
/// stands, also where it is the value of a flag.
pub proof fn lemma_token_anywhere_decides(args: Seq<Seq<char>>, i: int)
    requires
        0 <= i < args.len(),
        is_non_build_token(args[i]),
    ensures
        !needs_target_dir(args),
{
}

/// Whether the wrapped tool, called with `args`, needs a target directory of
/// its own.
///
/// It needs none without arguments, none where any argument is a non-build
/// token, and none where the first argument that is no flag is a registry
/// command.
pub fn is_required_target_dir(args: &[String]) -> (needed: bool)
    ensures
        needed == needs_target_dir(args.deep_view()),
{
    let ghost words = args.deep_view();
    if args.len() == 0 {
        return false;
    }
    let mut i: usize = 0;
    while i < args.len()
        invariant
            i <= args.len(),
            words == args.deep_view(),
            forall|k: int| 0 <= k < i ==> !is_non_build_token(#[trigger] words[k]),
        decreases args.len() - i,
    {
        if is_non_build_arg(args[i].as_str()) {
            assert(is_non_build_token(words[i as int]));
            return false;
        }
        i += 1;
    }
    assert(words.skip(0) =~= words);
    let mut j: usize = 0;
    while j < args.len()
        invariant
            j <= args.len(),
            words == args.deep_view(),
            words.len() > 0,
            all_build_tokens(words),
            subcommand(words) == subcommand(words.skip(j as int)),
        decreases args.len() - j,
    {
        let arg = args[j].as_str();
        assert(words.skip(j as int)[0] == arg@);
        if !starts_with_hyphen(arg) {
            return !is_registry_arg(arg);
        }
        assert(words.skip(j as int).drop_first() =~= words.skip(j + 1));
        j += 1;
    }
    assert(words.skip(j as int).len() == 0);
    true
}

} // verus!
