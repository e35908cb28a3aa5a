//! The command lines that provisioning runs: which program, with which
//! arguments and environment. Nothing here starts a process.

use vstd::prelude::*;
use crate::text::{decimal, to_decimal};

verus! {

/// How the host's `cp` asks for a copy-on-write clone.
#[derive(Debug, Clone, Copy, PartialEq, Eq, Structural)]
pub enum CopyFlavor {
    /// GNU coreutils: `--reflink=auto`.
    Reflink,
    /// BSD and macOS: `-c`.
    Clonefile,
}

/// A program to run with its arguments and the environment variables
/// to set for it.
#[derive(Debug, Clone, PartialEq, Eq)]
pub struct CommandLine {
    /// The executable, by path or by name.
    pub program: String,
    /// The arguments, in order.
    pub args: Vec<String>,
    /// Variables added to the inherited environment, as name and value.
    pub env: Vec<(String, String)>,
}

/// A command line seen through the characters of its texts.
pub struct CommandView {
    pub program: Seq<char>,
    pub args: Seq<Seq<char>>,
    pub env: Seq<(Seq<char>, Seq<char>)>,
}

/// The characters of each string of a sequence.
pub open spec fn texts(strings: Seq<String>) -> Seq<Seq<char>> {
    strings.map_values(|s: String| s@)
}

/// The characters of each name and value of a sequence of pairs.
pub open spec fn pairs(bindings: Seq<(String, String)>) -> Seq<(Seq<char>, Seq<char>)> {
    bindings.map_values(|b: (String, String)| (b.0@, b.1@))
}

impl View for CommandLine {
    type V = CommandView;

    open spec fn view(&self) -> CommandView {
        CommandView { program: self.program@, args: texts(self.args@), env: pairs(self.env@) }
    }
}

/// The administrative role that owns a freshly initialised cluster.
pub open spec fn superuser() -> Seq<char> {
    "postgres"@
}

/// The environment variable that names the data directory.
pub open spec fn data_variable() -> Seq<char> {
    "PGDATA"@
}

/// Initialise an empty cluster in `data_directory`, owned by the
/// administrative role.
pub open spec fn init_db_line(initdb: Seq<char>, data_directory: Seq<char>) -> CommandView {
    CommandView {
        program: initdb,
        args: seq!["--username=postgres"@],
        env: seq![(data_variable(), data_directory)],
    }
}

/// Run the server on `data_directory`, listening on `port`.
pub open spec fn postgres_line(postgres: Seq<char>, data_directory: Seq<char>, port: u32)
    -> CommandView {
    CommandView {
        program: postgres,
        args: seq!["-p"@, decimal(port as nat)],
        env: seq![(data_variable(), data_directory)],
    }
}

/// The option that asks `cp` for a copy-on-write clone where the file
/// system offers one, and for a full copy where it does not.
pub open spec fn clone_option(flavor: CopyFlavor) -> Seq<char> {
    match flavor {
        CopyFlavor::Reflink => "--reflink=auto"@,
        CopyFlavor::Clonefile => "-c"@,
    }
}

/// Copy `entry`, with everything below it, into `destination`.
pub open spec fn copy_entry_line(entry: Seq<char>, destination: Seq<char>, flavor: CopyFlavor)
    -> CommandView {
    CommandView {
        program: "cp"@,
        args: seq!["-R"@, clone_option(flavor), entry, destination],
        env: Seq::empty(),
    }
}

/// Create `username` as a superuser role on the server that listens on
/// `port` in `socket`.
pub open spec fn create_user_line(socket: Seq<char>, port: u32, username: Seq<char>)
    -> CommandView {
    CommandView {
        program: "createuser"@,
        args: seq![
            "-h"@,
            socket,
            "-p"@,
            decimal(port as nat),
            "-U"@,
            superuser(),
            "--superuser"@,
            "--echo"@,
            username,
        ],
        env: Seq::empty(),
    }
}

/// Create the database `dbname`, owned by `owner`, on the server that
/// listens on `port` in `socket`.
pub open spec fn create_db_line(
    socket: Seq<char>,
    port: u32,
    owner: Seq<char>,
    dbname: Seq<char>,
) -> CommandView {
    CommandView {
        program: "createdb"@,
        args: seq![
            "-h"@,
            socket,
            "-p"@,
            decimal(port as nat),
            "-U"@,
            superuser(),
            "-O"@,
            owner,
            "--echo"@,
            dbname,
        ],
        env: Seq::empty(),
    }
}

/// The arguments of a command line, each preceded by one space.
pub open spec fn spaced(args: Seq<Seq<char>>) -> Seq<char>
    decreases args.len(),
{
    if args.len() == 0 {
        Seq::empty()
    } else {
        spaced(args.drop_last()) + seq![' '] + args.last()
    }
}

/// A command line as one text: the program, then each argument after a
/// single space.
pub open spec fn description(line: CommandView) -> Seq<char> {
    line.program + spaced(line.args)
}

impl CommandLine {
    /// A command line for `program` with no arguments yet.
    pub fn new(program: &str) -> (line: CommandLine)
        ensures
            line@ == (CommandView { program: program@, args: Seq::empty(), env: Seq::empty() }),
    {
        let line = CommandLine {
            program: String::from_str(program),
            args: Vec::new(),
            env: Vec::new(),
        };
        assert(line@.args =~= Seq::empty());
        assert(line@.env =~= Seq::empty());
        line
    }

    /// Adds one argument after those already there.
    pub fn arg(&mut self, value: &str)
        ensures
            final(self)@ == (CommandView { args: old(self)@.args.push(value@), ..old(self)@ }),
    {
        self.args.push(String::from_str(value));
        assert(self@.args =~= old(self)@.args.push(value@));
    }

    /// Adds one environment variable after those already there.
    pub fn env(&mut self, name: &str, value: &str)
        ensures
            final(self)@ == (CommandView {
                env: old(self)@.env.push((name@, value@)),
                ..old(self)@
            }),
    {
        self.env.push((String::from_str(name), String::from_str(value)));
        assert(self@.env =~= old(self)@.env.push((name@, value@)));
    }

    /// The command line as one text, for reports.
    pub fn describe(&self) -> (text: String)
        ensures
            text@ == description(self@),
    {
        let mut text = self.program.clone();
        let mut i: usize = 0;
        while i < self.args.len()
            invariant
                i <= self.args.len(),
                text@ == self.program@ + spaced(texts(self.args@).take(i as int)),
            decreases self.args.len() - i,
        {
            text.append(" ");
            text.append(self.args[i].as_str());
            proof {
                reveal_strlit(" ");
                let all = texts(self.args@);
                let upto = all.take(i + 1);
                assert(upto.drop_last() =~= all.take(i as int));
                assert(upto.last() == self.args@[i as int]@);
                assert(" "@ =~= seq![' ']);
                assert(text@ =~= self.program@ + spaced(upto));
            }
            i += 1;
        }
        assert(texts(self.args@).take(i as int) =~= texts(self.args@));
        text
    }
}

/// The command that initialises an empty cluster in `data_directory`.
pub fn init_db_command(initdb: &str, data_directory: &str) -> (line: CommandLine)
    ensures
        line@ == init_db_line(initdb@, data_directory@),
{
    let mut line = CommandLine::new(initdb);
    line.env("PGDATA", data_directory);
    line.arg("--username=postgres");
    assert(line@.args =~= init_db_line(initdb@, data_directory@).args);
    assert(line@.env =~= init_db_line(initdb@, data_directory@).env);
    line
}

/// The command that runs the server on `data_directory` and `port`.
pub fn postgres_command(postgres: &str, data_directory: &str, port: u32) -> (line: CommandLine)
    ensures
        line@ == postgres_line(postgres@, data_directory@, port),
{
    let mut line = CommandLine::new(postgres);
    line.env("PGDATA", data_directory);
    line.arg("-p");
    let number = to_decimal(port);
    line.arg(number.as_str());
    assert(line@.args =~= postgres_line(postgres@, data_directory@, port).args);
    assert(line@.env =~= postgres_line(postgres@, data_directory@, port).env);
    line
}

/// The command that copies one entry of a template into `destination`.
pub fn copy_entry_command(entry: &str, destination: &str, flavor: CopyFlavor) -> (line:
    CommandLine)
    ensures
        line@ == copy_entry_line(entry@, destination@, flavor),
{
    let mut line = CommandLine::new("cp");
    line.arg("-R");
    match flavor {
        CopyFlavor::Reflink => line.arg("--reflink=auto"),
        CopyFlavor::Clonefile => line.arg("-c"),
    }
    line.arg(entry);
    line.arg(destination);
    assert(line@.args =~= copy_entry_line(entry@, destination@, flavor).args);
    line
}

/// The command that creates the role `username`.
pub fn create_user_command(socket: &str, port: u32, username: &str) -> (line: CommandLine)
    ensures
        line@ == create_user_line(socket@, port, username@),
{
    let mut line = CommandLine::new("createuser");
    line.arg("-h");
    line.arg(socket);
    line.arg("-p");
    let number = to_decimal(port);
    line.arg(number.as_str());
    line.arg("-U");
    line.arg("postgres");
    line.arg("--superuser");
    line.arg("--echo");
    line.arg(username);
    assert(line@.args =~= create_user_line(socket@, port, username@).args);
    line
}

/// The command that creates the database `dbname`, owned by `owner`.
pub fn create_db_command(socket: &str, port: u32, owner: &str, dbname: &str) -> (line:
    CommandLine)
    ensures
        line@ == create_db_line(socket@, port, owner@, dbname@),
{
    let mut line = CommandLine::new("createdb");
    line.arg("-h");
    line.arg(socket);
    line.arg("-p");
    let number = to_decimal(port);
    line.arg(number.as_str());
    line.arg("-U");
    line.arg("postgres");
    line.arg("-O");
    line.arg(owner);
    line.arg("--echo");
    line.arg(dbname);
    assert(line@.args =~= create_db_line(socket@, port, owner@, dbname@).args);
    line
}

} // verus!
