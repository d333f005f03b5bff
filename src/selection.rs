use vstd::prelude::*;

use crate::computer::{clone_opt, Computer};
use crate::method::AccessMethod;
use crate::remote::Command;
use crate::report::{create_report_path, report_path, ReportKind};

verus! {

/// The run's configuration: the target, the evidence directory, which access
/// methods are requested and which operations.
pub struct Opts {
    pub computer: String,
    pub user: String,
    pub password: Option<String>,
    pub domain: Option<String>,
    pub store_directory: String,
    pub all: bool,
    pub psexec: bool,
    pub wmi: bool,
    pub psrem: bool,
    pub local: bool,
    pub ssh: bool,
    pub rdp: bool,
    pub nla: bool,
    pub ssh_key: Option<String>,
    pub rdp_wait_time: u64,
    pub custom_command_path: Option<String>,
    pub search_files_path: Option<String>,
    pub image_memory: Option<String>,
}

/// One acquisition pipeline wired to one access method.
pub struct Acquirer {
    pub computer: Computer,
    pub store_directory: String,
    pub method: AccessMethod,
    /// Network level authentication, for desktop-protocol automation.
    pub nla: bool,
    /// The private key, for secure shell.
    pub key_file: Option<String>,
    /// How long a memory image may take, for desktop-protocol automation.
    pub timeout_secs: Option<u64>,
}

/// `[m]` where `b` holds, nothing otherwise.
pub open spec fn when(b: bool, m: AccessMethod) -> Seq<AccessMethod> {
    if b {
        seq![m]
    } else {
        Seq::empty()
    }
}

/// The methods of a list of acquirers, in order.
pub open spec fn acquirer_methods(v: Seq<Acquirer>) -> Seq<AccessMethod> {
    v.map_values(|a: Acquirer| a.method)
}

/// An acquirer wired to the run's target, directory and method options.
pub open spec fn configured(
    a: Acquirer,
    c: Computer,
    dir: Seq<char>,
    nla: bool,
    key_file: Option<String>,
    timeout_secs: Option<u64>,
) -> bool {
    &&& a.computer == c
    &&& a.store_directory@ == dir
    &&& a.nla == (a.method == AccessMethod::Rdp && nla)
    &&& a.key_file == (if a.method == AccessMethod::Ssh {
        key_file
    } else {
        None
    })
    &&& a.timeout_secs == (if a.method == AccessMethod::Rdp {
        timeout_secs
    } else {
        None
    })
}

/// Every acquirer of the list is wired to the run's target and options.
pub open spec fn all_configured(
    v: Seq<Acquirer>,
    c: Computer,
    dir: Seq<char>,
    nla: bool,
    key_file: Option<String>,
    timeout_secs: Option<u64>,
) -> bool {
    forall|i: int| 0 <= i < v.len() ==> configured(#[trigger] v[i], c, dir, nla, key_file, timeout_secs)
}

/// The evidence pipelines of a run: with `all` every remote Windows method,
/// otherwise each requested method, in priority order: direct execution, the
/// remote-execution tools, desktop automation, secure shell.
pub open spec fn evidence_methods(o: Opts) -> Seq<AccessMethod> {
    if o.all {
        seq![AccessMethod::PsExec, AccessMethod::Wmi, AccessMethod::PsRemote, AccessMethod::Rdp]
    } else {
        when(o.local, AccessMethod::Local) + when(o.psexec, AccessMethod::PsExec) + when(
            o.wmi,
            AccessMethod::Wmi,
        ) + when(o.psrem, AccessMethod::PsRemote) + when(o.rdp, AccessMethod::Rdp) + when(
            o.ssh,
            AccessMethod::Ssh,
        )
    }
}

/// The memory-imaging candidates of a run, in the order they are tried.
pub open spec fn memory_methods(o: Opts) -> Seq<AccessMethod> {
    if o.all {
        seq![AccessMethod::PsExec, AccessMethod::PsRemote, AccessMethod::Rdp]
    } else {
        when(o.psexec, AccessMethod::PsExec) + when(o.psrem, AccessMethod::PsRemote) + when(
            o.rdp,
            AccessMethod::Rdp,
        )
    }
}

/// The custom-command pipelines of a run, in the same priority order.
pub open spec fn command_methods(o: Opts) -> Seq<AccessMethod> {
    if o.all {
        seq![AccessMethod::PsExec, AccessMethod::PsRemote]
    } else {
        when(o.local, AccessMethod::Local) + when(o.psexec, AccessMethod::PsExec) + when(
            o.psrem,
            AccessMethod::PsRemote,
        ) + when(o.wmi, AccessMethod::Wmi) + when(o.rdp, AccessMethod::Rdp) + when(
            o.ssh,
            AccessMethod::Ssh,
        )
    }
}

/// The registry pipelines of a run.
pub open spec fn registry_methods(o: Opts) -> Seq<AccessMethod> {
    if o.all {
        seq![AccessMethod::PsExec, AccessMethod::PsRemote, AccessMethod::Rdp]
    } else {
        when(o.psexec, AccessMethod::PsExec) + when(o.psrem, AccessMethod::PsRemote) + when(
            o.rdp,
            AccessMethod::Rdp,
        )
    }
}

/// The image timeout for a wait of `minutes`, in seconds.
pub open spec fn wait_secs(minutes: u64) -> int {
    60 * minutes
}

/// The image timeout of the memory pipelines: the configured wait where desktop
/// automation may be among them, none otherwise.
pub open spec fn memory_timeout(o: Opts) -> Option<u64> {
    if o.all || o.rdp {
        Some(wait_secs(o.rdp_wait_time) as u64)
    } else {
        None
    }
}

/// Whether the run asks for at least one access method.
pub open spec fn spec_any_method_selected(o: Opts) -> bool {
    o.all || o.psexec || o.wmi || o.psrem || o.local || o.ssh || o.rdp
}

/// Checks that the run asks for at least one access method; a run without one is
/// a configuration error, found before any remote contact.
pub fn any_method_selected(opts: &Opts) -> (r: bool)
    ensures
        r == spec_any_method_selected(*opts),
{
    opts.all || opts.psexec || opts.wmi || opts.psrem || opts.local || opts.ssh || opts.rdp
}

/// Appends an acquirer for `method` where `wanted` holds.
fn push_if(
    v: &mut Vec<Acquirer>,
    wanted: bool,
    method: AccessMethod,
    computer: &Computer,
    store_directory: &String,
    nla: bool,
    key_file: &Option<String>,
    timeout_secs: Option<u64>,
)
    requires
        all_configured(old(v)@, *computer, store_directory@, nla, *key_file, timeout_secs),
    ensures
        acquirer_methods(final(v)@) == acquirer_methods(old(v)@) + when(wanted, method),
        all_configured(final(v)@, *computer, store_directory@, nla, *key_file, timeout_secs),
{
    if wanted {
        let a = Acquirer {
            computer: computer.duplicate(),
            store_directory: store_directory.clone(),
            method,
            nla: method == AccessMethod::Rdp && nla,
            key_file: if method == AccessMethod::Ssh {
                clone_opt(key_file)
            } else {
                None
            },
            timeout_secs: if method == AccessMethod::Rdp {
                timeout_secs
            } else {
                None
            },
        };
        v.push(a);
        assert(acquirer_methods(final(v)@) =~= acquirer_methods(old(v)@) + when(wanted, method));
    } else {
        assert(acquirer_methods(final(v)@) =~= acquirer_methods(old(v)@) + when(wanted, method));
    }
}

/// The evidence pipelines that the run asks for, in the order they run.
pub fn create_evidence_acquirers(
    computer: &Computer,
    local_store_directory: &String,
    opts: &Opts,
    key_file: Option<String>,
) -> (r: Vec<Acquirer>)
    ensures
        acquirer_methods(r@) == evidence_methods(*opts),
        all_configured(r@, *computer, local_store_directory@, opts.nla, key_file, None),
{
    let mut v: Vec<Acquirer> = Vec::new();
    let d = local_store_directory;
    if opts.all {
        push_if(&mut v, true, AccessMethod::PsExec, computer, d, opts.nla, &key_file, None);
        push_if(&mut v, true, AccessMethod::Wmi, computer, d, opts.nla, &key_file, None);
        push_if(&mut v, true, AccessMethod::PsRemote, computer, d, opts.nla, &key_file, None);
        push_if(&mut v, true, AccessMethod::Rdp, computer, d, opts.nla, &key_file, None);
    } else {
        push_if(&mut v, opts.local, AccessMethod::Local, computer, d, opts.nla, &key_file, None);
        push_if(&mut v, opts.psexec, AccessMethod::PsExec, computer, d, opts.nla, &key_file, None);
        push_if(&mut v, opts.wmi, AccessMethod::Wmi, computer, d, opts.nla, &key_file, None);
        push_if(&mut v, opts.psrem, AccessMethod::PsRemote, computer, d, opts.nla, &key_file, None);
        push_if(&mut v, opts.rdp, AccessMethod::Rdp, computer, d, opts.nla, &key_file, None);
        push_if(&mut v, opts.ssh, AccessMethod::Ssh, computer, d, opts.nla, &key_file, None);
    }
    assert(acquirer_methods(v@) =~= evidence_methods(*opts));
    v
}

/// The memory pipelines that the run asks for, in the order they are tried.
/// Desktop-protocol imaging waits `60 * rdp_wait_time` seconds at most; that
/// number of seconds must fit in 64 bits only where desktop automation may be selected.
pub fn create_memory_acquirers(
    computer: &Computer,
    local_store_directory: &String,
    opts: &Opts,
) -> (r: Vec<Acquirer>)
    requires
        opts.all || opts.rdp ==> wait_secs(opts.rdp_wait_time) <= u64::MAX,
    ensures
        acquirer_methods(r@) == memory_methods(*opts),
        all_configured(
            r@,
            *computer,
            local_store_directory@,
            opts.nla,
            None,
            memory_timeout(*opts),
        ),
{
    let mut v: Vec<Acquirer> = Vec::new();
    let d = local_store_directory;
    let t = if opts.all || opts.rdp {
        Some(60 * opts.rdp_wait_time)
    } else {
        None
    };
    let k: Option<String> = None;
    if opts.all {
        push_if(&mut v, true, AccessMethod::PsExec, computer, d, opts.nla, &k, t);
        push_if(&mut v, true, AccessMethod::PsRemote, computer, d, opts.nla, &k, t);
        push_if(&mut v, true, AccessMethod::Rdp, computer, d, opts.nla, &k, t);
    } else {
        push_if(&mut v, opts.psexec, AccessMethod::PsExec, computer, d, opts.nla, &k, t);
        push_if(&mut v, opts.psrem, AccessMethod::PsRemote, computer, d, opts.nla, &k, t);
        push_if(&mut v, opts.rdp, AccessMethod::Rdp, computer, d, opts.nla, &k, t);
    }
    assert(acquirer_methods(v@) =~= memory_methods(*opts));
    v
}

/// The custom-command pipelines that the run asks for, in the order they run.
pub fn create_command_runners(
    computer: &Computer,
    local_store_directory: &String,
    opts: &Opts,
    key_file: Option<String>,
) -> (r: Vec<Acquirer>)
    ensures
        acquirer_methods(r@) == command_methods(*opts),
        all_configured(r@, *computer, local_store_directory@, opts.nla, key_file, None),
{
    let mut v: Vec<Acquirer> = Vec::new();
    let d = local_store_directory;
    if opts.all {
        push_if(&mut v, true, AccessMethod::PsExec, computer, d, opts.nla, &key_file, None);
        push_if(&mut v, true, AccessMethod::PsRemote, computer, d, opts.nla, &key_file, None);
    } else {
        push_if(&mut v, opts.local, AccessMethod::Local, computer, d, opts.nla, &key_file, None);
        push_if(&mut v, opts.psexec, AccessMethod::PsExec, computer, d, opts.nla, &key_file, None);
        push_if(&mut v, opts.psrem, AccessMethod::PsRemote, computer, d, opts.nla, &key_file, None);
        push_if(&mut v, opts.wmi, AccessMethod::Wmi, computer, d, opts.nla, &key_file, None);
        push_if(&mut v, opts.rdp, AccessMethod::Rdp, computer, d, opts.nla, &key_file, None);
        push_if(&mut v, opts.ssh, AccessMethod::Ssh, computer, d, opts.nla, &key_file, None);
    }
    assert(acquirer_methods(v@) =~= command_methods(*opts));
    v
}

/// The registry pipelines that the run asks for, in the order they run.
pub fn create_registry_acquirers(
    computer: &Computer,
    local_store_directory: &String,
    opts: &Opts,
) -> (r: Vec<Acquirer>)
    ensures
        acquirer_methods(r@) == registry_methods(*opts),
        all_configured(r@, *computer, local_store_directory@, opts.nla, None, None),
{
    let mut v: Vec<Acquirer> = Vec::new();
    let d = local_store_directory;
    let k: Option<String> = None;
    if opts.all {
        push_if(&mut v, true, AccessMethod::PsExec, computer, d, opts.nla, &k, None);
        push_if(&mut v, true, AccessMethod::PsRemote, computer, d, opts.nla, &k, None);
        push_if(&mut v, true, AccessMethod::Rdp, computer, d, opts.nla, &k, None);
    } else {
        push_if(&mut v, opts.psexec, AccessMethod::PsExec, computer, d, opts.nla, &k, None);
        push_if(&mut v, opts.psrem, AccessMethod::PsRemote, computer, d, opts.nla, &k, None);
        push_if(&mut v, opts.rdp, AccessMethod::Rdp, computer, d, opts.nla, &k, None);
    }
    assert(acquirer_methods(v@) =~= registry_methods(*opts));
    v
}

/// The file-transfer methods: the Windows-native copiers (xcopy over an
/// administrative share, PowerShell remoting copy), desktop-protocol copy and
/// secure copy.
#[derive(Clone, Copy, Debug, PartialEq, Eq, Structural)]
pub enum CopyMethod {
    XCopy,
    PsCopy,
    RdpCopy,
    Scp,
}

/// `[m]` where `b` holds, nothing otherwise.
pub open spec fn copier_when(b: bool, m: CopyMethod) -> Seq<CopyMethod> {
    if b {
        seq![m]
    } else {
        Seq::empty()
    }
}

/// The Windows-native copiers that the run asks for, in the order they are tried.
pub open spec fn windows_copy_methods(o: Opts) -> Seq<CopyMethod> {
    if o.all {
        seq![CopyMethod::XCopy, CopyMethod::PsCopy]
    } else {
        copier_when(o.psexec, CopyMethod::XCopy) + copier_when(o.psrem, CopyMethod::PsCopy)
    }
}

/// The candidates of a file retrieval, in the order they are tried: secure copy
/// alone where secure shell is requested; otherwise the Windows-native copiers,
/// then desktop-protocol copy as the last resort where it is requested.
pub open spec fn file_retrieval_methods(o: Opts) -> Seq<CopyMethod> {
    if o.ssh {
        seq![CopyMethod::Scp]
    } else {
        windows_copy_methods(o) + copier_when(o.rdp || o.all, CopyMethod::RdpCopy)
    }
}

fn push_copier_if(v: &mut Vec<CopyMethod>, wanted: bool, m: CopyMethod)
    ensures
        final(v)@ == old(v)@ + copier_when(wanted, m),
{
    if wanted {
        v.push(m);
    }
    assert(final(v)@ =~= old(v)@ + copier_when(wanted, m));
}

/// The Windows-native copiers that the run asks for, in the order they are tried.
pub fn create_windows_non_rdp_file_copiers(opts: &Opts) -> (r: Vec<CopyMethod>)
    ensures
        r@ == windows_copy_methods(*opts),
{
    let mut v: Vec<CopyMethod> = Vec::new();
    if opts.all {
        v.push(CopyMethod::XCopy);
        v.push(CopyMethod::PsCopy);
    } else {
        push_copier_if(&mut v, opts.psexec, CopyMethod::XCopy);
        push_copier_if(&mut v, opts.psrem, CopyMethod::PsCopy);
    }
    assert(v@ =~= windows_copy_methods(*opts));
    v
}

/// The candidates of a file retrieval, in the order they are tried.
pub fn create_file_retrieval_copiers(opts: &Opts) -> (r: Vec<CopyMethod>)
    ensures
        r@ == file_retrieval_methods(*opts),
{
    if opts.ssh {
        let mut v: Vec<CopyMethod> = Vec::new();
        v.push(CopyMethod::Scp);
        assert(v@ =~= file_retrieval_methods(*opts));
        v
    } else {
        let mut v = create_windows_non_rdp_file_copiers(opts);
        push_copier_if(&mut v, opts.rdp || opts.all, CopyMethod::RdpCopy);
        v
    }
}

/// A named command template of a pipeline: its display name, the prefix of its
/// report file, its arguments and whether it runs elevated.
pub struct Job {
    pub name: String,
    pub report_prefix: String,
    pub command: Vec<String>,
    pub elevated: bool,
}

/// Copies a list of arguments, keeping their values.
fn clone_words(v: &Vec<String>) -> (r: Vec<String>)
    ensures
        r@ == v@,
{
    let mut r: Vec<String> = Vec::new();
    let mut i: usize = 0;
    while i < v.len()
        invariant
            0 <= i <= v@.len(),
            r@ == v@.subrange(0, i as int),
        decreases v@.len() - i,
    {
        r.push(v[i].clone());
        assert(r@ =~= v@.subrange(0, i as int + 1));
        i = i + 1;
    }
    assert(v@.subrange(0, v@.len() as int) =~= v@);
    r
}

impl Acquirer {
    /// The invocation that runs `job` through this pipeline: on its computer, with
    /// the job's arguments and elevation, its output kept in the pipeline's store
    /// directory under the job's report prefix.
    pub fn invocation_for(&self, job: &Job) -> (r: Command)
        ensures
            r.remote_computer == self.computer,
            r.command@ == job.command@,
            r.store_directory == Some(self.store_directory),
            r.report_filename_prefix == job.report_prefix,
            r.elevated == job.elevated,
    {
        Command {
            remote_computer: self.computer.duplicate(),
            command: clone_words(&job.command),
            store_directory: Some(self.store_directory.clone()),
            report_filename_prefix: job.report_prefix.clone(),
            elevated: job.elevated,
        }
    }

    /// The report file of `job` in this pipeline.
    pub fn report_path_for(&self, job: &Job) -> (r: String)
        ensures
            r@ == report_path(
                self.store_directory@,
                self.computer.address@,
                job.report_prefix@,
                self.method,
                ReportKind::Text,
            ),
    {
        create_report_path(&self.computer, &self.store_directory, &job.report_prefix, self.method, ReportKind::Text)
    }
}

} // verus!
