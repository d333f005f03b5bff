use vstd::prelude::*;

use crate::args::{
    flag_value, join_with_spaces, join_words, push_flag_value, push_str, push_string, views,
};
use crate::computer::Computer;
use crate::method::{method_label, AccessMethod};
use crate::report::{create_report_path, report_path, ReportKind};

verus! {

/// A program to launch and its arguments.
pub struct ProcessSpec {
    pub program_path: String,
    pub all_program_args: Vec<String>,
}

/// Two processes: the standard output of `feeder` is piped into `main`.
/// The feeder answers "n" to first-use trust prompts of the main tool.
pub struct PipedInvocation {
    pub feeder: ProcessSpec,
    pub main: ProcessSpec,
}

/// `cmd /c <command>`: the command run by the Windows shell.
pub open spec fn shell_process_args(command: Seq<Seq<char>>) -> Seq<Seq<char>> {
    seq!["/c"@] + command
}

/// The words `echo n`, which decline further prompts.
pub open spec fn decline_words() -> Seq<Seq<char>> {
    seq!["echo"@, "n"@]
}

/// Wraps a command in the Windows shell.
pub fn prepare_remote_process(command: Vec<String>) -> (r: ProcessSpec)
    ensures
        r.program_path@ == "cmd"@,
        views(r.all_program_args@) == shell_process_args(views(command@)),
{
    let mut args: Vec<String> = Vec::new();
    push_str(&mut args, "/c");
    let n = command.len();
    let mut i: usize = 0;
    while i < n
        invariant
            n == command@.len(),
            0 <= i <= n,
            views(args@) == shell_process_args(views(command@.subrange(0, i as int))),
        decreases n - i,
    {
        push_string(&mut args, command[i].clone());
        assert(views(command@.subrange(0, i as int + 1)) =~= views(
            command@.subrange(0, i as int),
        ).push(command@[i as int]@));
        assert(shell_process_args(views(command@.subrange(0, i as int + 1))) =~= shell_process_args(
            views(command@.subrange(0, i as int)),
        ).push(command@[i as int]@));
        i = i + 1;
    }
    assert(command@.subrange(0, n as int) =~= command@);
    ProcessSpec { program_path: String::from_str("cmd"), all_program_args: args }
}

/// The feeder process `cmd /c echo n`.
pub fn decline_prompts_process() -> (r: ProcessSpec)
    ensures
        r.program_path@ == "cmd"@,
        views(r.all_program_args@) == shell_process_args(decline_words()),
{
    let mut echo: Vec<String> = Vec::new();
    push_str(&mut echo, "echo");
    push_str(&mut echo, "n");
    assert(views(echo@) =~= decline_words());
    prepare_remote_process(echo)
}

/// Direct execution on this machine.
pub struct Local {
    localhost: Computer,
}

/// The identity of this machine.
pub open spec fn localhost_identity(c: Computer) -> bool {
    c.address@ == "127.0.0.1"@ && c.username@ == Seq::<char>::empty() && c.password.is_none()
        && c.domain.is_none()
}

impl Local {
    /// The computer that local commands run on.
    pub closed spec fn spec_computer(&self) -> Computer {
        self.localhost
    }

    /// A local connector for 127.0.0.1, without credentials.
    pub fn new() -> (r: Local)
        ensures
            localhost_identity(r.spec_computer()),
    {
        Local {
            localhost: Computer {
                address: String::from_str("127.0.0.1"),
                username: String::new(),
                password: None,
                domain: None,
            },
        }
    }

    /// The label of direct execution.
    pub fn connect_method_name(&self) -> (r: &'static str)
        ensures
            r@ == method_label(AccessMethod::Local),
    {
        AccessMethod::Local.label()
    }

    /// Direct execution needs no framing: the command is returned unchanged.
    pub fn prepare_command(
        &self,
        remote_computer: &Computer,
        command: Vec<String>,
        output_file_path: Option<String>,
        elevated: bool,
    ) -> (r: Vec<String>)
        ensures
            r == command,
    {
        command
    }

    /// The computer that local commands run on.
    pub fn computer(&self) -> (r: &Computer)
        ensures
            *r == self.spec_computer(),
    {
        &self.localhost
    }

    /// A local path needs no translation.
    pub fn path_to_remote_form(&self, path: &String) -> (r: String)
        ensures
            r@ == path@,
    {
        path.clone()
    }

    /// The label of the local file copier.
    pub fn method_name(&self) -> (r: &'static str)
        ensures
            r@ == "XCopy (local)"@,
    {
        "XCopy (local)"
    }
}

/// The launcher and authentication segment of a secure-shell invocation:
/// `plink.exe -ssh <address> -l <user> -no-antispoof [-pw <password>] [-i <key file>]`.
pub open spec fn ssh_auth_args(c: Computer, key_file: Option<String>) -> Seq<Seq<char>> {
    seq!["plink.exe"@, "-ssh"@, c.address@, "-l"@, c.username@, "-no-antispoof"@] + flag_value(
        "-pw"@,
        c.password,
    ) + flag_value("-i"@, key_file)
}

/// The remote shell text that runs the user command, elevated with `sudo` if asked;
/// a known password is fed to `sudo -S` on its standard input.
pub open spec fn ssh_payload(c: Computer, command: Seq<Seq<char>>, elevated: bool) -> Seq<char> {
    if elevated {
        match c.password {
            Some(p) => "echo "@ + p@ + " | sudo -S "@ + join_words(command),
            None => "sudo -S "@ + join_words(command),
        }
    } else {
        join_words(command)
    }
}

/// Output redirection to `path`, if one is given.
pub open spec fn redirect_args(output_file_path: Option<String>) -> Seq<Seq<char>> {
    match output_file_path {
        Some(p) => seq![">"@, p@],
        None => Seq::empty(),
    }
}

/// The whole secure-shell invocation: authentication, then the user command,
/// then the redirection.
pub open spec fn ssh_prepared(
    c: Computer,
    key_file: Option<String>,
    command: Seq<Seq<char>>,
    output_file_path: Option<String>,
    elevated: bool,
) -> Seq<Seq<char>> {
    ssh_auth_args(c, key_file) + seq![ssh_payload(c, command, elevated)] + redirect_args(
        output_file_path,
    )
}

/// Secure shell through plink, optionally with a private key file.
pub struct Ssh {
    pub key_file: Option<String>,
}

/// Pushes the authentication segment of a plink invocation.
fn push_ssh_auth(v: &mut Vec<String>, c: &Computer, key_file: &Option<String>)
    ensures
        views(final(v)@) == views(old(v)@) + ssh_auth_args(*c, *key_file),
{
    push_str(v, "plink.exe");
    push_str(v, "-ssh");
    push_string(v, c.address.clone());
    push_str(v, "-l");
    push_string(v, c.username.clone());
    push_str(v, "-no-antispoof");
    push_flag_value(v, "-pw", &c.password);
    push_flag_value(v, "-i", key_file);
    assert(views(final(v)@) =~= views(old(v)@) + ssh_auth_args(*c, *key_file));
}

impl Ssh {
    /// The label of secure shell.
    pub fn connect_method_name(&self) -> (r: &'static str)
        ensures
            r@ == method_label(AccessMethod::Ssh),
    {
        AccessMethod::Ssh.label()
    }

    /// Encodes `command` as a plink invocation on `remote_computer`.
    pub fn prepare_command(
        &self,
        remote_computer: &Computer,
        command: Vec<String>,
        output_file_path: Option<String>,
        elevated: bool,
    ) -> (r: Vec<String>)
        ensures
            views(r@) == ssh_prepared(
                *remote_computer,
                self.key_file,
                views(command@),
                output_file_path,
                elevated,
            ),
    {
        let mut prepared: Vec<String> = Vec::new();
        push_ssh_auth(&mut prepared, remote_computer, &self.key_file);
        let joined = join_with_spaces(&command);
        let payload = if elevated {
            match &remote_computer.password {
                Some(password) => {
                    let mut p = String::from_str("echo ");
                    p.append(password.as_str());
                    p.append(" | sudo -S ");
                    p.append(joined.as_str());
                    p
                },
                None => {
                    let mut p = String::from_str("sudo -S ");
                    p.append(joined.as_str());
                    p
                },
            }
        } else {
            joined
        };
        assert(payload@ =~= ssh_payload(*remote_computer, views(command@), elevated));
        push_string(&mut prepared, payload);
        match output_file_path {
            None => {},
            Some(path) => {
                push_str(&mut prepared, ">");
                push_string(&mut prepared, path);
            },
        }
        assert(views(prepared@) =~= ssh_prepared(
            *remote_computer,
            self.key_file,
            views(command@),
            output_file_path,
            elevated,
        ));
        prepared
    }

    /// The processes that run `command` on `remote_computer`, elevated if asked, its
    /// output redirected to `output_file_path` if given: `cmd /c echo n` piped into
    /// `cmd /c plink.exe ...`.
    pub fn connect_invocation(
        &self,
        remote_computer: &Computer,
        command: Vec<String>,
        output_file_path: Option<String>,
        elevated: bool,
    ) -> (r: PipedInvocation)
        ensures
            r.feeder.program_path@ == "cmd"@,
            views(r.feeder.all_program_args@) == shell_process_args(decline_words()),
            r.main.program_path@ == "cmd"@,
            views(r.main.all_program_args@) == shell_process_args(
                ssh_prepared(
                    *remote_computer,
                    self.key_file,
                    views(command@),
                    output_file_path,
                    elevated,
                ),
            ),
    {
        let feeder = decline_prompts_process();
        let prepared = self.prepare_command(remote_computer, command, output_file_path, elevated);
        let main = prepare_remote_process(prepared);
        PipedInvocation { feeder, main }
    }
}

/// The arguments of a pscp copy:
/// `-l <user> [-pw <password>] [-i <key file>] <source> <target>`.
pub open spec fn scp_copy_args(
    c: Computer,
    key_file: Option<String>,
    source: Seq<char>,
    target: Seq<char>,
) -> Seq<Seq<char>> {
    seq!["-l"@, c.username@] + flag_value("-pw"@, c.password) + flag_value("-i"@, key_file) + seq![
        source,
        target,
    ]
}

/// The arguments of a plink removal, with the same authentication as a copy:
/// `-ssh <address> -l <user> -no-antispoof [-pw <password>] [-i <key file>] rm -f <target>`.
/// With `-f` a file that is already absent is no error.
pub open spec fn scp_delete_args(c: Computer, key_file: Option<String>, target: Seq<char>) -> Seq<
    Seq<char>,
> {
    ssh_auth_args(c, key_file).drop_first() + seq!["rm"@, "-f"@, target]
}

/// A path in the `address:path` notation of secure copy.
pub open spec fn scp_remote_form(c: Computer, path: Seq<char>) -> Seq<char> {
    c.address@ + seq![':'] + path
}

/// File transfer over secure copy (pscp), removal over plink.
pub struct Scp {
    pub computer: Computer,
    pub key_file: Option<String>,
}

impl Scp {
    /// The invocation that copies `source` to `target`: `cmd /c echo n` piped into
    /// `pscp.exe <authentication> <source> <target>`.
    pub fn copy_invocation(&self, source: &String, target: &String) -> (r: PipedInvocation)
        ensures
            r.feeder.program_path@ == "cmd"@,
            views(r.feeder.all_program_args@) == shell_process_args(decline_words()),
            r.main.program_path@ == "pscp.exe"@,
            views(r.main.all_program_args@) == scp_copy_args(
                self.computer,
                self.key_file,
                source@,
                target@,
            ),
    {
        let mut args: Vec<String> = Vec::new();
        push_str(&mut args, "-l");
        push_string(&mut args, self.computer.username.clone());
        push_flag_value(&mut args, "-pw", &self.computer.password);
        push_flag_value(&mut args, "-i", &self.key_file);
        push_string(&mut args, source.clone());
        push_string(&mut args, target.clone());
        assert(views(args@) =~= scp_copy_args(self.computer, self.key_file, source@, target@));
        PipedInvocation {
            feeder: decline_prompts_process(),
            main: ProcessSpec { program_path: String::from_str("pscp.exe"), all_program_args: args },
        }
    }

    /// The invocation that removes `target` on the remote machine: `cmd /c echo n`
    /// piped into `plink.exe <authentication> rm -f <target>`.
    pub fn delete_invocation(&self, target: &String) -> (r: PipedInvocation)
        ensures
            r.feeder.program_path@ == "cmd"@,
            views(r.feeder.all_program_args@) == shell_process_args(decline_words()),
            r.main.program_path@ == "plink.exe"@,
            views(r.main.all_program_args@) == scp_delete_args(
                self.computer,
                self.key_file,
                target@,
            ),
    {
        let mut args: Vec<String> = Vec::new();
        push_str(&mut args, "-ssh");
        push_string(&mut args, self.computer.address.clone());
        push_str(&mut args, "-l");
        push_string(&mut args, self.computer.username.clone());
        push_str(&mut args, "-no-antispoof");
        push_flag_value(&mut args, "-pw", &self.computer.password);
        push_flag_value(&mut args, "-i", &self.key_file);
        push_str(&mut args, "rm");
        push_str(&mut args, "-f");
        push_string(&mut args, target.clone());
        assert(views(args@) =~= scp_delete_args(self.computer, self.key_file, target@));
        PipedInvocation {
            feeder: decline_prompts_process(),
            main: ProcessSpec {
                program_path: String::from_str("plink.exe"),
                all_program_args: args,
            },
        }
    }

    /// The label of secure copy.
    pub fn method_name(&self) -> (r: &'static str)
        ensures
            r@ == "SCP"@,
    {
        "SCP"
    }

    /// The computer that files are copied from.
    pub fn computer(&self) -> (r: &Computer)
        ensures
            *r == self.computer,
    {
        &self.computer
    }

    /// Writes `path` as secure copy expects it: `<address>:<path>`.
    pub fn path_to_remote_form(&self, path: &String) -> (r: String)
        ensures
            r@ == scp_remote_form(self.computer, path@),
    {
        proof {
            reveal_strlit(":");
        }
        let mut r = self.computer.address.clone();
        r.append(":");
        r.append(path.as_str());
        assert(r@ =~= scp_remote_form(self.computer, path@));
        r
    }
}

/// The number of authentication arguments: two for the password where one is set,
/// two for the key file where one is configured.
pub open spec fn credential_args_len(c: Computer, key_file: Option<String>) -> int {
    (if c.password.is_some() { 2int } else { 0int }) + (if key_file.is_some() { 2int } else { 0int })
}

/// A secure-shell invocation starts with the target's authentication: launcher,
/// address, `-l` and the user name always, `-pw` and the password exactly when a
/// password is set, `-i` and the key file exactly when one is configured. The user
/// command comes right after that segment, and the redirection, if any, last.
pub proof fn lemma_ssh_invocation_layout(
    c: Computer,
    key_file: Option<String>,
    command: Seq<Seq<char>>,
    output_file_path: Option<String>,
    elevated: bool,
)
    ensures
        ({
            let r = ssh_prepared(c, key_file, command, output_file_path, elevated);
            let a = 6 + credential_args_len(c, key_file);
            &&& r.len() == a + 1 + (if output_file_path.is_some() { 2int } else { 0int })
            &&& r[0] == "plink.exe"@ && r[2] == c.address@ && r[3] == "-l"@ && r[4] == c.username@
            &&& (c.password matches Some(p) ==> r[6] == "-pw"@ && r[7] == p@)
            &&& (key_file matches Some(k) ==> r[a - 2] == "-i"@ && r[a - 1] == k@)
            &&& r[a] == ssh_payload(c, command, elevated)
            &&& (output_file_path matches Some(o) ==> r[a + 1] == ">"@ && r[a + 2] == o@)
        }),
{
    let r = ssh_prepared(c, key_file, command, output_file_path, elevated);
    let a = 6 + credential_args_len(c, key_file);
    let auth = ssh_auth_args(c, key_file);
    assert(auth.len() == a);
    assert(r =~= auth + seq![ssh_payload(c, command, elevated)] + redirect_args(output_file_path));
    assert(r[a] == ssh_payload(c, command, elevated));
}

/// The user command text inside a secure-shell invocation ends with the command's
/// words joined by spaces, whether elevated or not.
pub proof fn lemma_ssh_payload_ends_with_command(
    c: Computer,
    command: Seq<Seq<char>>,
    elevated: bool,
)
    ensures
        ({
            let t = ssh_payload(c, command, elevated);
            let j = join_words(command);
            t.len() >= j.len() && t.subrange(t.len() - j.len(), t.len() as int) == j
        }),
{
    let t = ssh_payload(c, command, elevated);
    let j = join_words(command);
    assert(t.subrange(t.len() - j.len(), t.len() as int) =~= j);
}

/// Secure copy and removal carry the same credentials: the user name always, the
/// password exactly when one is set, the key file exactly when one is configured,
/// ahead of the paths and of the removal command `rm -f`.
pub proof fn lemma_scp_authentication(
    c: Computer,
    key_file: Option<String>,
    source: Seq<char>,
    target: Seq<char>,
)
    ensures
        ({
            let cp = scp_copy_args(c, key_file, source, target);
            let a = 2 + credential_args_len(c, key_file);
            &&& cp.len() == a + 2
            &&& cp[0] == "-l"@ && cp[1] == c.username@
            &&& (c.password matches Some(p) ==> cp[2] == "-pw"@ && cp[3] == p@)
            &&& (key_file matches Some(k) ==> cp[a - 2] == "-i"@ && cp[a - 1] == k@)
            &&& cp[a] == source && cp[a + 1] == target
        }),
        ({
            let rm = scp_delete_args(c, key_file, target);
            let a = 5 + credential_args_len(c, key_file);
            &&& rm.len() == a + 3
            &&& rm[1] == c.address@ && rm[2] == "-l"@ && rm[3] == c.username@
            &&& (c.password matches Some(p) ==> rm[5] == "-pw"@ && rm[6] == p@)
            &&& (key_file matches Some(k) ==> rm[a - 2] == "-i"@ && rm[a - 1] == k@)
            &&& rm[a] == "rm"@ && rm[a + 1] == "-f"@ && rm[a + 2] == target
        }),
{
    let a = 5 + credential_args_len(c, key_file);
    let auth = ssh_auth_args(c, key_file);
    assert(auth.len() == a + 1);
    let rm = scp_delete_args(c, key_file, target);
    assert(rm =~= auth.drop_first() + seq!["rm"@, "-f"@, target]);
    assert(rm[a] == "rm"@);
}

/// One unit of remote execution: the command to run on a computer, where to keep
/// its output (a store directory and a report name prefix), and whether it runs
/// elevated.
pub struct Command {
    pub remote_computer: Computer,
    pub command: Vec<String>,
    pub store_directory: Option<String>,
    pub report_filename_prefix: String,
    pub elevated: bool,
}

impl Ssh {
    /// The report file that running `invocation` over secure shell writes, if its
    /// output is kept. It is created before the remote command starts.
    pub fn report_path_for(&self, invocation: &Command) -> (r: Option<String>)
        ensures
            r.is_some() == invocation.store_directory.is_some(),
            r matches Some(p) ==> p@ == report_path(
                invocation.store_directory.unwrap()@,
                invocation.remote_computer.address@,
                invocation.report_filename_prefix@,
                AccessMethod::Ssh,
                ReportKind::Text,
            ),
    {
        match &invocation.store_directory {
            None => None,
            Some(dir) => Some(
                create_report_path(
                    &invocation.remote_computer,
                    dir,
                    &invocation.report_filename_prefix,
                    AccessMethod::Ssh,
                    ReportKind::Text,
                ),
            ),
        }
    }
}

} // verus!
