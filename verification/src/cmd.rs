//! The commands that are sent to an ELM327 adapter.
use vstd::prelude::*;
use vstd::utf8::*;

use crate::text::{string_bytes, string_from_utf8, utf8_of};

verus! {

/// The type of command to send via OBD.
#[derive(Debug, PartialEq, Eq, Structural, Clone, Copy)]
pub enum CommandType {
    /// Regular PID command, e.g. 010C
    PIDCommand,
    /// An ELM AT command, e.g. ATZ
    ATCommand,
    /// An OBD service query, e.g. 09
    ServiceQuery,
    /// An arbitrary message, used for Mode 22 PIDs of any length (22xxyy)
    Arbitrary,
    /// A command that has not been given a type yet
    Default,
}

impl Default for CommandType {
    fn default() -> (res: Self)
        ensures
            res == CommandType::Default,
    {
        CommandType::Default
    }
}

/// What a command holds, as mathematical values.
pub struct CommandView {
    pub kind: CommandType,
    pub pid: Seq<u8>,
    pub at: Seq<u8>,
    pub svc: Seq<u8>,
    pub msg: Seq<char>,
}

/// The main command abstraction to send to the adapter.
#[derive(Debug)]
pub struct Command {
    command_type: CommandType,
    /// If command_type is PIDCommand, the 4 character PID
    pid_command: [u8; 4],
    /// If command_type is ATCommand, the ATxx command
    at_command: &'static [u8],
    /// If command_type is ServiceQuery, the 2 character service number
    svc_command: [u8; 2],
    /// If command_type is Arbitrary, a message of any length
    arbitrary_message: String,
}

impl View for Command {
    type V = CommandView;

    closed spec fn view(&self) -> CommandView {
        CommandView {
            kind: self.command_type,
            pid: self.pid_command@,
            at: self.at_command@,
            svc: self.svc_command@,
            msg: self.arbitrary_message@,
        }
    }
}

/// The bytes of the field that the command's type selects.
pub open spec fn command_bytes(c: CommandView) -> Seq<u8> {
    match c.kind {
        CommandType::PIDCommand => c.pid,
        CommandType::ATCommand => c.at,
        CommandType::ServiceQuery => c.svc,
        CommandType::Arbitrary => utf8_of(c.msg),
        CommandType::Default => Seq::empty(),
    }
}

/// A command of the given type whose other fields are all zero or empty.
pub open spec fn empty_command(kind: CommandType) -> CommandView {
    CommandView {
        kind,
        pid: seq![0u8, 0u8, 0u8, 0u8],
        at: Seq::empty(),
        svc: seq![0u8, 0u8],
        msg: Seq::empty(),
    }
}

impl Default for Command {
    fn default() -> (res: Self)
        ensures
            res@ == empty_command(CommandType::Default),
    {
        let res = Command {
            command_type: CommandType::Default,
            pid_command: [0u8; 4],
            at_command: &[],
            svc_command: [0u8; 2],
            arbitrary_message: String::new(),
        };
        assert(res@.pid =~= seq![0u8, 0u8, 0u8, 0u8]);
        assert(res@.svc =~= seq![0u8, 0u8]);
        assert(res@.at =~= Seq::<u8>::empty());
        res
    }
}

impl Command {
    /// A new PID command, e.g. `010C` (engine RPM).
    pub fn new_pid(command: &[u8; 4]) -> (res: Self)
        ensures
            res@ == (CommandView { kind: CommandType::PIDCommand, pid: command@, ..empty_command(CommandType::PIDCommand) }),
    {
        let mut res = Self::default();
        res.command_type = CommandType::PIDCommand;
        res.pid_command = *command;
        res
    }

    /// A new ELM327 AT command, e.g. `ATZ`.
    pub fn new_at(at_command: &'static [u8]) -> (res: Self)
        ensures
            res@ == (CommandView { kind: CommandType::ATCommand, at: at_command@, ..empty_command(CommandType::ATCommand) }),
    {
        let mut res = Self::default();
        res.command_type = CommandType::ATCommand;
        res.at_command = at_command;
        res
    }

    /// A new service query, e.g. `09`.
    pub fn new_svc(svc_command: &[u8; 2]) -> (res: Self)
        ensures
            res@ == (CommandView { kind: CommandType::ServiceQuery, svc: svc_command@, ..empty_command(CommandType::ServiceQuery) }),
    {
        let mut res = Self::default();
        res.command_type = CommandType::ServiceQuery;
        res.svc_command = *svc_command;
        res
    }

    /// A new arbitrary command, e.g. a Mode 22 PID `221154`.
    pub fn new_arb(arbitrary_msg: &str) -> (res: Self)
        ensures
            res@ == (CommandView { kind: CommandType::Arbitrary, msg: arbitrary_msg@, ..empty_command(CommandType::Arbitrary) }),
    {
        let mut res = Self::default();
        res.command_type = CommandType::Arbitrary;
        res.arbitrary_message = arbitrary_msg.to_owned();
        res
    }

    /// Sets the PID if this command is a PID command or has no type yet
    /// (it then becomes a PID command); any other command is left as it is.
    pub fn set_pid(&mut self, command: &[u8; 4])
        ensures
            (old(self)@.kind == CommandType::Default || old(self)@.kind == CommandType::PIDCommand)
                ==> final(self)@ == (CommandView { kind: CommandType::PIDCommand, pid: command@, at: Seq::empty(), ..old(self)@ }),
            !(old(self)@.kind == CommandType::Default || old(self)@.kind == CommandType::PIDCommand)
                ==> final(self)@ == old(self)@,
    {
        if self.command_type == CommandType::Default {
            self.command_type = CommandType::PIDCommand;
        }
        if self.command_type != CommandType::PIDCommand {
            return;
        }
        self.pid_command = *command;
        self.at_command = &[];
        assert(self@.at =~= Seq::<u8>::empty());
    }

    /// Sets the AT command if this command is an AT command or has no type
    /// yet. Fails (returns `false`) on a command of another type, and on an
    /// AT command shorter than 3 bytes; a typeless command still becomes an
    /// AT command in that last case.
    pub fn set_at(&mut self, at_command: &'static [u8]) -> (ok: bool)
        ensures
            ({
                let typed = old(self)@.kind == CommandType::Default || old(self)@.kind == CommandType::ATCommand;
                &&& ok == (typed && at_command@.len() >= 3)
                &&& ok ==> final(self)@ == (CommandView { kind: CommandType::ATCommand, at: at_command@, pid: seq![0u8, 0u8, 0u8, 0u8], ..old(self)@ })
                &&& (typed && !ok) ==> final(self)@ == (CommandView { kind: CommandType::ATCommand, ..old(self)@ })
                &&& !typed ==> final(self)@ == old(self)@
            }),
    {
        if self.command_type == CommandType::Default {
            self.command_type = CommandType::ATCommand;
        }
        if self.command_type != CommandType::ATCommand {
            return false;
        }
        if at_command.len() < 3 {
            return false;
        }
        self.pid_command = [0u8; 4];
        self.at_command = at_command;
        assert(self@.pid =~= seq![0u8, 0u8, 0u8, 0u8]);
        true
    }

    /// Sets the service number if this command is a service query or has
    /// no type yet (it then becomes a service query).
    pub fn set_svc(&mut self, command: &[u8; 2])
        ensures
            (old(self)@.kind == CommandType::Default || old(self)@.kind == CommandType::ServiceQuery)
                ==> final(self)@ == (CommandView { kind: CommandType::ServiceQuery, svc: command@, ..old(self)@ }),
            !(old(self)@.kind == CommandType::Default || old(self)@.kind == CommandType::ServiceQuery)
                ==> final(self)@ == old(self)@,
    {
        if self.command_type == CommandType::Default {
            self.command_type = CommandType::ServiceQuery;
        }
        if self.command_type != CommandType::ServiceQuery {
            return;
        }
        self.svc_command = *command;
    }

    /// The `pid_command` field.
    pub fn get_pid(&self) -> (res: [u8; 4])
        ensures
            res@ == self@.pid,
    {
        self.pid_command
    }

    /// The `at_command` field.
    pub fn get_at(&self) -> (res: &[u8])
        ensures
            res@ == self@.at,
    {
        self.at_command
    }

    /// The `svc_command` field.
    pub fn get_svc(&self) -> (res: [u8; 2])
        ensures
            res@ == self@.svc,
    {
        self.svc_command
    }

    /// The `arbitrary_message` field.
    pub fn get_msg(&self) -> (res: String)
        ensures
            res@ == self@.msg,
    {
        self.arbitrary_message.clone()
    }

    /// The type of this command.
    pub fn command_type(&self) -> (res: &CommandType)
        ensures
            *res == self@.kind,
    {
        &self.command_type
    }

    /// The content of the field in use, as bytes; empty for a command
    /// without a type.
    pub fn as_bytes(&self) -> (res: Vec<u8>)
        ensures
            res@ == command_bytes(self@),
    {
        match self.command_type {
            CommandType::PIDCommand => {
                let mut v: Vec<u8> = Vec::new();
                v.push(self.pid_command[0]);
                v.push(self.pid_command[1]);
                v.push(self.pid_command[2]);
                v.push(self.pid_command[3]);
                assert(v@ =~= self.pid_command@);
                v
            },
            CommandType::ATCommand => vstd::slice::slice_to_vec(self.at_command),
            CommandType::ServiceQuery => {
                let mut v: Vec<u8> = Vec::new();
                v.push(self.svc_command[0]);
                v.push(self.svc_command[1]);
                assert(v@ =~= self.svc_command@);
                v
            },
            CommandType::Arbitrary => string_bytes(&self.arbitrary_message),
            CommandType::Default => Vec::new(),
        }
    }

    /// The content of the field in use, as a string. The bytes must be
    /// valid UTF-8.
    pub fn as_string(&self) -> (res: String)
        requires
            valid_utf8(command_bytes(self@)),
        ensures
            res@ == decode_utf8(command_bytes(self@)),
    {
        match string_from_utf8(self.as_bytes()) {
            Some(s) => s,
            None => String::new(),
        }
    }
}


/// A new PID, AT or service command sends exactly the field it was made
/// with; an arbitrary message sends its text.
pub proof fn lemma_new_command_sends_its_field(pid: Seq<u8>, at: Seq<u8>, svc: Seq<u8>, msg: Seq<char>)
    ensures
        command_bytes(CommandView { kind: CommandType::PIDCommand, pid, ..empty_command(CommandType::PIDCommand) }) == pid,
        command_bytes(CommandView { kind: CommandType::ATCommand, at, ..empty_command(CommandType::ATCommand) }) == at,
        command_bytes(CommandView { kind: CommandType::ServiceQuery, svc, ..empty_command(CommandType::ServiceQuery) }) == svc,
        command_bytes(CommandView { kind: CommandType::Arbitrary, msg, ..empty_command(CommandType::Arbitrary) }) == utf8_of(msg),
{
}

} // verus!
