//! The command that a session runs, as the PTY layer's builder holds it, and
//! what a domain adds to every command.

use portable_pty::CommandBuilder;
use vstd::prelude::*;

verus! {

/// `portable_pty::CommandBuilder`, held and handed on as it is. What the
/// library says of one it says through `command_argv`, `command_cwd` and
/// `command_env`.
#[verifier::external_type_specification]
#[verifier::external_body]
pub struct ExCommandBuilder(CommandBuilder);

/// The argument vector that a `CommandBuilder` holds, program first, as
/// `get_argv` returns it. It is empty for a builder that stands for the
/// default program.
pub uninterp spec fn command_argv(cmd: CommandBuilder) -> Seq<Seq<char>>;

/// The working directory that a `CommandBuilder` holds, if one was set, as
/// `get_cwd` returns it.
pub uninterp spec fn command_cwd(cmd: CommandBuilder) -> Option<Seq<char>>;

/// The environment that a `CommandBuilder` holds: the value of each
/// variable, under the key by which the builder files it.
pub uninterp spec fn command_env(cmd: CommandBuilder) -> Map<Seq<char>, Seq<char>>;

/// The key under which `CommandBuilder::env` files the variable `name`: the
/// name itself where variable names are case-sensitive, its lower-case form
/// where they are not.
pub uninterp spec fn env_key(name: Seq<char>) -> Seq<char>;

/// The texts of a list of strings.
pub open spec fn arg_texts(args: Seq<String>) -> Seq<Seq<char>> {
    args.map_values(|a: String| a@)
}

/// The texts of a list of variables, each a name and a value.
pub open spec fn env_texts(vars: Seq<(String, String)>) -> Seq<(Seq<char>, Seq<char>)> {
    vars.map_values(|v: (String, String)| (v.0@, v.1@))
}

/// The environment `base` after each of `vars` has been set in turn, a later
/// variable replacing an earlier one that is filed under the same key.
pub open spec fn env_with(
    base: Map<Seq<char>, Seq<char>>,
    vars: Seq<(Seq<char>, Seq<char>)>,
) -> Map<Seq<char>, Seq<char>>
    decreases vars.len(),
{
    if vars.len() == 0 {
        base
    } else {
        env_with(base, vars.drop_last()).insert(env_key(vars.last().0), vars.last().1)
    }
}

/// Calls `CommandBuilder::from_argv` with each argument converted to an
/// `OsString`. The builder holds those arguments and no working directory;
/// its environment is the process's own and nothing is claimed of it.
#[verifier::external_body]
pub(crate) fn command_from_argv(args: &Vec<String>) -> (cmd: CommandBuilder)
    ensures
        command_argv(cmd) == arg_texts(args@),
        command_cwd(cmd) is None,
{
    CommandBuilder::from_argv(args.iter().map(|a| a.into()).collect())
}

/// Calls `CommandBuilder::env`: the variable is filed under its key, whatever
/// stood there before; arguments and working directory stay.
#[verifier::external_body]
pub(crate) fn command_set_env(cmd: &mut CommandBuilder, name: &str, value: &str)
    ensures
        command_env(*final(cmd)) == command_env(*old(cmd)).insert(env_key(name@), value@),
        command_argv(*final(cmd)) == command_argv(*old(cmd)),
        command_cwd(*final(cmd)) == command_cwd(*old(cmd)),
{
    cmd.env(name, value)
}

/// Calls `CommandBuilder::cwd`: the working directory becomes `dir`;
/// arguments and environment stay.
#[verifier::external_body]
pub(crate) fn command_set_cwd(cmd: &mut CommandBuilder, dir: &str)
    ensures
        command_cwd(*final(cmd)) == Some(dir@),
        command_argv(*final(cmd)) == command_argv(*old(cmd)),
        command_env(*final(cmd)) == command_env(*old(cmd)),
{
    cmd.cwd(dir)
}

/// Sets each of `vars` in turn in the environment of `cmd`.
pub fn set_env_vars(cmd: &mut CommandBuilder, vars: &Vec<(String, String)>)
    ensures
        command_env(*final(cmd)) == env_with(command_env(*old(cmd)), env_texts(vars@)),
        command_argv(*final(cmd)) == command_argv(*old(cmd)),
        command_cwd(*final(cmd)) == command_cwd(*old(cmd)),
{
    let ghost texts = env_texts(vars@);
    let mut done: usize = 0;
    while done < vars.len()
        invariant
            done <= vars@.len(),
            texts == env_texts(vars@),
            command_env(*cmd) == env_with(command_env(*old(cmd)), texts.take(done as int)),
            command_argv(*cmd) == command_argv(*old(cmd)),
            command_cwd(*cmd) == command_cwd(*old(cmd)),
        decreases vars.len() - done,
    {
        let var = &vars[done];
        command_set_env(cmd, var.0.as_str(), var.1.as_str());
        proof {
            let next = texts.take(done + 1);
            assert(next.drop_last() =~= texts.take(done as int));
            assert(next.last() == texts[done as int]);
        }
        done += 1;
    }
    assert(texts.take(vars@.len() as int) =~= texts);
}

/// What a domain adds to every command it runs, and what it runs when it is
/// given no command.
#[derive(Debug)]
pub struct CommandDefaults {
    /// The program to run, with its arguments, when none is asked for. Where
    /// it is `None` the PTY layer's default program is run.
    pub default_prog: Option<Vec<String>>,
    /// Variables to set in the environment of every command, in order.
    pub environment: Vec<(String, String)>,
}

impl CommandDefaults {
    /// The argument vector of the default program: empty where the PTY
    /// layer's default program is to run.
    pub open spec fn default_argv(&self) -> Seq<Seq<char>> {
        match self.default_prog {
            Some(args) => arg_texts(args@),
            None => Seq::empty(),
        }
    }

    /// Decorates `cmd` with the defaults: sets each variable of
    /// `environment` in turn. Arguments and working directory stay.
    pub fn apply_cmd_defaults(&self, cmd: &mut CommandBuilder)
        ensures
            command_env(*final(cmd)) == env_with(
                command_env(*old(cmd)),
                env_texts(self.environment@),
            ),
            command_argv(*final(cmd)) == command_argv(*old(cmd)),
            command_cwd(*final(cmd)) == command_cwd(*old(cmd)),
    {
        set_env_vars(cmd, &self.environment);
    }

    /// The command to run when none is asked for: the default program,
    /// without a working directory, decorated with the defaults over the
    /// environment that the PTY layer gives a new command.
    pub fn build_prog(&self) -> (cmd: CommandBuilder)
        ensures
            command_argv(cmd) == self.default_argv(),
            command_cwd(cmd) is None,
            exists|base: Map<Seq<char>, Seq<char>>|
                command_env(cmd) == #[trigger] env_with(base, env_texts(self.environment@)),
    {
        let mut cmd = match &self.default_prog {
            Some(args) => command_from_argv(args),
            None => {
                let none: Vec<String> = Vec::new();
                let cmd = command_from_argv(&none);
                assert(arg_texts(none@) =~= Seq::empty());
                cmd
            },
        };
        let ghost base = command_env(cmd);
        self.apply_cmd_defaults(&mut cmd);
        assert(command_env(cmd) == env_with(base, env_texts(self.environment@)));
        cmd
    }
}

} // verus!
