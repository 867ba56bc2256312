//! The commands of a client that has not logged in: `connect`, `create` and
//! `help`.

use crate::net::protocol::{ProtocolComponent, ProtocolEvent, ProtocolOutEvent, Text};
use crate::text::{first_char, same_text, split_first, text_trimmed, trim_text, upper, uppercased};
use vstd::prelude::*;
use vstd::string::StringExecFns;

verus! {

/// What a login command does.
#[derive(Clone, Copy, Debug, PartialEq, Eq, Structural)]
pub enum LoginAction {
    Connect,
    Create,
    Help,
}

/// A command that a client can give before it has logged in.
#[derive(Debug, Clone)]
pub struct LoginCmd {
    pub name: String,
    pub aliases: Vec<String>,
    pub func: LoginAction,
    pub help: String,
    pub syntax: String,
    pub shorthelp: String,
}

/// The commands that a client can give before it has logged in.
#[derive(Debug)]
pub struct LoginCommands {
    pub cmds: Vec<LoginCmd>,
}

/// What a login command comes to.
pub enum LoginEffect {
    /// A line for the client.
    Say(Seq<char>),
    /// A user name and a password for a new account, for the upper layers.
    CreateUser(Seq<char>, Seq<char>),
    /// A user name and a password, for the upper layers.
    Login(Seq<char>, Seq<char>),
}

/// Tells that `effect` has been queued: the line stands at the end of what
/// was queued for the client, or the request at the end of what was queued
/// for the upper layers, and the other queue is as it was.
pub open spec fn queued(
    effect: LoginEffect,
    asked_before: Seq<ProtocolEvent>,
    said_before: Seq<ProtocolOutEvent>,
    after: ProtocolComponent,
) -> bool {
    match effect {
        LoginEffect::Say(text) => {
            &&& after.in_buffer@ == asked_before
            &&& after.out_buffer@.len() == said_before.len() + 1
            &&& after.out_buffer@.drop_last() == said_before
            &&& after.out_buffer@.last() matches ProtocolOutEvent::Line(t) && t.plain@ == text
        },
        LoginEffect::CreateUser(user, password) => {
            &&& after.out_buffer@ == said_before
            &&& after.in_buffer@.len() == asked_before.len() + 1
            &&& after.in_buffer@.drop_last() == asked_before
            &&& after.in_buffer@.last() matches ProtocolEvent::CreateUser(u, p) && u@ == user
                && p@ == password
        },
        LoginEffect::Login(user, password) => {
            &&& after.out_buffer@ == said_before
            &&& after.in_buffer@.len() == asked_before.len() + 1
            &&& after.in_buffer@.drop_last() == asked_before
            &&& after.in_buffer@.last() matches ProtocolEvent::Login(u, p) && u@ == user && p@
                == password
        },
    }
}

/// Tells that `effect` has come about and nothing else has changed.
pub open spec fn effected(effect: LoginEffect, before: ProtocolComponent, after: ProtocolComponent) -> bool {
    &&& after.ptype == before.ptype
    &&& after.pstatus == before.pstatus
    &&& after.capabilities == before.capabilities
    &&& after.created == before.created
    &&& after.session == before.session
    &&& queued(effect, before.in_buffer@, before.out_buffer@, after)
}

/// Tells whether `word` names the command: it is the command's name or one
/// of its aliases, whatever the case of the letters.
pub open spec fn names(cmd: LoginCmd, word: Seq<char>) -> bool {
    uppercased(cmd.name@) == uppercased(word) || exists|i: int|
        0 <= i < cmd.aliases@.len() && uppercased(#[trigger] cmd.aliases@[i]@) == uppercased(word)
}

/// The index of the first command at or after `from` that `word` names, or
/// the number of commands where it names none.
pub open spec fn first_named(cmds: Seq<LoginCmd>, word: Seq<char>, from: int) -> int
    decreases cmds.len() - from,
{
    if from >= cmds.len() || names(cmds[from], word) {
        from
    } else {
        first_named(cmds, word, from + 1)
    }
}

/// What follows the first space of a command, or nothing where it holds none.
pub open spec fn args_of(command: Seq<char>) -> Seq<char> {
    let at = first_char(command, ' ', 0);
    if at < command.len() {
        command.skip(at + 1)
    } else {
        Seq::empty()
    }
}

/// What stands before the first space of a command.
pub open spec fn word_of(command: Seq<char>) -> Seq<char> {
    command.take(first_char(command, ' ', 0))
}

/// The user name and the password in `<username>=<password>`, each without
/// the whitespace at its ends, or `None` where the `=` or one of the two is
/// missing.
pub open spec fn credentials(args: Seq<char>) -> Option<(Seq<char>, Seq<char>)> {
    let at = first_char(args, '=', 0);
    if at < args.len() {
        let user = text_trimmed(args.take(at));
        let password = text_trimmed(args.skip(at + 1));
        if user.len() == 0 || password.len() == 0 {
            None
        } else {
            Some((user, password))
        }
    } else {
        None
    }
}

/// What `create` comes to.
pub open spec fn create_effect(args: Seq<char>) -> LoginEffect {
    match credentials(args) {
        Some((user, password)) => LoginEffect::CreateUser(user, password),
        None => LoginEffect::Say("SYNTAX: create <username>=<password>"@),
    }
}

/// What `connect` comes to.
pub open spec fn connect_effect(args: Seq<char>) -> LoginEffect {
    match credentials(args) {
        Some((user, password)) => LoginEffect::Login(user, password),
        None => LoginEffect::Say("SYNTAX: connect <username>=<password>"@),
    }
}

/// One line of the list of commands.
pub open spec fn listing_line(cmd: LoginCmd) -> Seq<char> {
    cmd.name@ + " | "@ + cmd.syntax@ + " | "@ + cmd.shorthelp@ + "\n"@
}

/// The list of commands, one line for each.
pub open spec fn listing(cmds: Seq<LoginCmd>) -> Seq<char>
    decreases cmds.len(),
{
    if cmds.len() == 0 {
        Seq::empty()
    } else {
        listing(cmds.drop_last()) + listing_line(cmds.last())
    }
}

/// What `help` comes to: the list of commands, or the help of the first
/// command that the argument names.
pub open spec fn help_effect(cmds: Seq<LoginCmd>, args: Seq<char>) -> LoginEffect {
    if args.len() == 0 {
        LoginEffect::Say(listing(cmds))
    } else {
        let at = first_named(cmds, args, 0);
        if at < cmds.len() {
            LoginEffect::Say(cmds[at].help@)
        } else {
            LoginEffect::Say("Sorry, no help found for that! try help without arguments"@)
        }
    }
}

/// What an action comes to on its arguments.
pub open spec fn action_effect(action: LoginAction, cmds: Seq<LoginCmd>, args: Seq<char>) -> LoginEffect {
    match action {
        LoginAction::Connect => connect_effect(args),
        LoginAction::Create => create_effect(args),
        LoginAction::Help => help_effect(cmds, args),
    }
}

/// What a line of a client that has not logged in comes to: the first
/// command that its first word names is carried out on the rest of the line,
/// and a line that names no command is answered with a hint.
pub open spec fn login_effect(cmds: Seq<LoginCmd>, command: Seq<char>) -> LoginEffect {
    let word = text_trimmed(word_of(command));
    let args = text_trimmed(args_of(command));
    let at = first_named(cmds, word, 0);
    if at < cmds.len() {
        action_effect(cmds[at].func, cmds, args)
    } else {
        LoginEffect::Say("Sorry, "@ + command + " that isn't a command. Type 'help' for help."@)
    }
}

/// Queues a line for the client.
fn say(prot: &mut ProtocolComponent, text: String)
    ensures
        effected(LoginEffect::Say(text@), *old(prot), *final(prot)),
{
    prot.out_buffer.push_back(ProtocolOutEvent::Line(Text { plain: text }));
    assert(prot.out_buffer@.drop_last() =~= old(prot).out_buffer@);
}

/// Reads `<username>=<password>`.
fn read_credentials(args: &str) -> (r: Option<(String, String)>)
    ensures
        match r {
            Some((user, password)) => credentials(args@) == Some((user@, password@)),
            None => credentials(args@) is None,
        },
{
    match split_first(args, '=') {
        Some((head, tail)) => {
            let user = trim_text(head);
            let password = trim_text(tail);
            if password.unicode_len() == 0 || user.unicode_len() == 0 {
                None
            } else {
                Some((user.to_owned(), password.to_owned()))
            }
        },
        None => None,
    }
}

/// The command `create <username>=<password>`: asks the upper layers for a
/// new account, or tells the client how the command is written.
pub fn login_create_command(prot: &mut ProtocolComponent, args: String, cmds: &Vec<LoginCmd>)
    ensures
        effected(create_effect(args@), *old(prot), *final(prot)),
{
    match read_credentials(args.as_str()) {
        Some((user, password)) => {
            prot.in_buffer.push_back(ProtocolEvent::CreateUser(user, password));
            assert(prot.in_buffer@.drop_last() =~= old(prot).in_buffer@);
        },
        None => {
            say(prot, "SYNTAX: create <username>=<password>".to_owned());
        },
    }
}

/// The command `connect <username>=<password>`: asks the upper layers to log
/// the user in, or tells the client how the command is written.
pub fn login_login_command(prot: &mut ProtocolComponent, args: String, cmds: &Vec<LoginCmd>)
    ensures
        effected(connect_effect(args@), *old(prot), *final(prot)),
{
    match read_credentials(args.as_str()) {
        Some((user, password)) => {
            prot.in_buffer.push_back(ProtocolEvent::Login(user, password));
            assert(prot.in_buffer@.drop_last() =~= old(prot).in_buffer@);
        },
        None => {
            say(prot, "SYNTAX: connect <username>=<password>".to_owned());
        },
    }
}

/// The index of the first command that `word` names, or the number of
/// commands where it names none.
pub fn find_command(cmds: &Vec<LoginCmd>, word: &str) -> (at: usize)
    ensures
        at == first_named(cmds@, word@, 0),
        at <= cmds@.len(),
{
    let n: usize = cmds.len();
    let mut i: usize = 0;
    while i < n
        invariant
            n == cmds@.len(),
            0 <= i <= n,
            first_named(cmds@, word@, 0) == first_named(cmds@, word@, i as int),
        decreases n - i,
    {
        if cmds[i].name_match(word) {
            return i;
        }
        i += 1;
    }
    n
}

/// The command `help [<topic>]`: the list of commands, or the help of the
/// command that the topic names.
pub fn login_help_command(prot: &mut ProtocolComponent, args: String, cmds: &Vec<LoginCmd>)
    ensures
        effected(help_effect(cmds@, args@), *old(prot), *final(prot)),
{
    if args.as_str().unicode_len() == 0 {
        let mut out: String = String::new();
        let n: usize = cmds.len();
        let mut i: usize = 0;
        assert(cmds@.take(0) =~= Seq::<LoginCmd>::empty());
        while i < n
            invariant
                n == cmds@.len(),
                0 <= i <= n,
                out@ == listing(cmds@.take(i as int)),
            decreases n - i,
        {
            assert(cmds@.take(i as int + 1).drop_last() =~= cmds@.take(i as int));
            let ghost before = out@;
            out.append(cmds[i].name.as_str());
            out.append(" | ");
            out.append(cmds[i].syntax.as_str());
            out.append(" | ");
            out.append(cmds[i].shorthelp.as_str());
            out.append("\n");
            assert(out@ =~= before + listing_line(cmds@[i as int]));
            i += 1;
        }
        assert(cmds@.take(n as int) =~= cmds@);
        say(prot, out);
    } else {
        let at: usize = find_command(cmds, args.as_str());
        if at < cmds.len() {
            say(prot, cmds[at].help.clone());
        } else {
            say(prot, "Sorry, no help found for that! try help without arguments".to_owned());
        }
    }
}

impl LoginCmd {
    /// Tells whether `command` names this command: it is the name or one of
    /// the aliases, whatever the case of the letters.
    pub fn name_match(&self, command: &str) -> (r: bool)
        ensures
            r == names(*self, command@),
    {
        let wanted: String = upper(command);
        let name: String = upper(self.name.as_str());
        if same_text(name.as_str(), wanted.as_str()) {
            return true;
        }
        let n: usize = self.aliases.len();
        let mut i: usize = 0;
        while i < n
            invariant
                n == self.aliases@.len(),
                0 <= i <= n,
                wanted@ == uppercased(command@),
                uppercased(self.name@) != uppercased(command@),
                forall|j: int|
                    0 <= j < i ==> uppercased(#[trigger] self.aliases@[j]@) != uppercased(command@),
            decreases n - i,
        {
            let alias: String = upper(self.aliases[i].as_str());
            if same_text(alias.as_str(), wanted.as_str()) {
                return true;
            }
            i += 1;
        }
        false
    }

    /// What follows the first space of a command, or nothing where it holds
    /// none.
    pub fn args(command: &str) -> (out: String)
        ensures
            out@ == args_of(command@),
    {
        match split_first(command, ' ') {
            Some((_, tail)) => tail.to_owned(),
            None => String::new(),
        }
    }
}

impl Default for LoginCommands {
    fn default() -> (out: Self)
        ensures
            out.cmds@.len() == 3,
            out.cmds@[0].name@ == "connect"@ && out.cmds@[0].func == LoginAction::Connect,
            out.cmds@[1].name@ == "create"@ && out.cmds@[1].func == LoginAction::Create,
            out.cmds@[2].name@ == "help"@ && out.cmds@[2].func == LoginAction::Help,
            forall|i: int| 0 <= i < 3 ==> (#[trigger] out.cmds@[i]).aliases@.len() == 0,
            out.cmds@[0].help@ == "does a login"@,
            out.cmds@[1].help@ == "creates an account"@,
            out.cmds@[2].help@ == "displays help"@,
            out.cmds@[0].syntax@ == "connect <username>=<password>"@,
            out.cmds@[1].syntax@ == "create <username>=<password>"@,
            out.cmds@[2].syntax@ == "help [<topic>]"@,
            forall|i: int| 0 <= i < 3 ==> (#[trigger] out.cmds@[i]).shorthelp@ == out.cmds@[i].syntax@,
    {
        let mut cmds: Vec<LoginCmd> = Vec::new();
        cmds.push(
            LoginCmd {
                name: "connect".to_owned(),
                aliases: Vec::new(),
                func: LoginAction::Connect,
                help: "does a login".to_owned(),
                syntax: "connect <username>=<password>".to_owned(),
                shorthelp: "connect <username>=<password>".to_owned(),
            },
        );
        cmds.push(
            LoginCmd {
                name: "create".to_owned(),
                aliases: Vec::new(),
                func: LoginAction::Create,
                help: "creates an account".to_owned(),
                syntax: "create <username>=<password>".to_owned(),
                shorthelp: "create <username>=<password>".to_owned(),
            },
        );
        cmds.push(
            LoginCmd {
                name: "help".to_owned(),
                aliases: Vec::new(),
                func: LoginAction::Help,
                help: "displays help".to_owned(),
                syntax: "help [<topic>]".to_owned(),
                shorthelp: "help [<topic>]".to_owned(),
            },
        );
        LoginCommands { cmds }
    }
}

impl LoginCommands {
    /// Carries out a line of a client that has not logged in: the first
    /// command that the first word names, on the rest of the line. A line
    /// that names no command is answered with a hint.
    pub fn execute(&mut self, prot: &mut ProtocolComponent, command: String)
        ensures
            final(self).cmds == old(self).cmds,
            effected(login_effect(old(self).cmds@, command@), *old(prot), *final(prot)),
    {
        let (word, args): (&str, &str) = match split_first(command.as_str(), ' ') {
            Some((head, tail)) => (trim_text(head), trim_text(tail)),
            None => {
                assert(command@.take(command@.len() as int) =~= command@);
                (trim_text(command.as_str()), trim_text(""))
            },
        };
        proof {
            crate::text::lemma_first_char(command@, ' ', 0);
            assert(""@ =~= Seq::<char>::empty()) by {
                reveal_strlit("");
            }
        }
        let at: usize = find_command(&self.cmds, word);
        if at < self.cmds.len() {
            match self.cmds[at].func {
                LoginAction::Connect => login_login_command(prot, args.to_owned(), &self.cmds),
                LoginAction::Create => login_create_command(prot, args.to_owned(), &self.cmds),
                LoginAction::Help => login_help_command(prot, args.to_owned(), &self.cmds),
            }
        } else {
            let mut msg: String = "Sorry, ".to_owned();
            msg.append(command.as_str());
            msg.append(" that isn't a command. Type 'help' for help.");
            say(prot, msg);
        }
    }
}

} // verus!
