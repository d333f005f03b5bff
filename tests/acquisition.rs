use gargamel::args::join_with_spaces;
use gargamel::computer::Computer;
use gargamel::imaging::{imaging_outcome, wait_timeout_secs, ImagingOutcome};
use gargamel::method::AccessMethod;
use gargamel::remote::{prepare_remote_process, Command, Local, Scp, Ssh};
use gargamel::report::{create_report_path, ReportKind};
use gargamel::schedule::Schedule;
use gargamel::selection::{
    create_command_runners, create_evidence_acquirers, create_file_retrieval_copiers,
    create_memory_acquirers, create_registry_acquirers, create_windows_non_rdp_file_copiers,
    any_method_selected, CopyMethod, Job, Opts,
};

fn s(x: &str) -> String {
    x.to_string()
}

fn words(xs: &[&str]) -> Vec<String> {
    xs.iter().map(|x| x.to_string()).collect()
}

fn target(password: Option<&str>) -> Computer {
    Computer::new(s("10.0.0.5"), s("admin"), password.map(s), None).unwrap()
}

fn opts() -> Opts {
    Opts {
        computer: s("10.0.0.5"),
        user: s("admin"),
        password: Some(s("p@ss")),
        domain: None,
        store_directory: s("evidence"),
        all: false,
        psexec: false,
        wmi: false,
        psrem: false,
        local: false,
        ssh: false,
        rdp: false,
        nla: false,
        ssh_key: None,
        rdp_wait_time: 2,
        custom_command_path: None,
        search_files_path: None,
        image_memory: None,
    }
}

/// Runs a schedule where candidate `i` reports `outcomes[i]`; returns the attempted indices.
fn drive(mut schedule: Schedule, outcomes: &[bool]) -> Vec<usize> {
    let mut attempted = Vec::new();
    while let Some(i) = schedule.next_candidate() {
        attempted.push(i);
        schedule.record(outcomes[i]);
    }
    attempted
}

#[test]
fn ssh_scenario_report_and_invocation() {
    let computer = target(Some("p@ss"));
    let ssh = Ssh { key_file: None };
    let invocation = Command {
        remote_computer: computer.duplicate(),
        command: words(&["ps", "-ef"]),
        store_directory: Some(s("evidence")),
        report_filename_prefix: s("process-list"),
        elevated: false,
    };
    let path = ssh.report_path_for(&invocation).unwrap();
    assert_eq!(path, "evidence/SSH_10.0.0.5_process-list.txt");
    assert!(path.contains("10.0.0.5") && path.contains("process-list") && path.contains("SSH"));
    let r = ssh.prepare_command(&computer, words(&["ps", "-ef"]), Some(path.clone()), false);
    assert_eq!(
        r,
        words(&[
            "plink.exe", "-ssh", "10.0.0.5", "-l", "admin", "-no-antispoof", "-pw", "p@ss",
            "ps -ef", ">", "evidence/SSH_10.0.0.5_process-list.txt",
        ])
    );
}

#[test]
fn ssh_connect_invocation_pipes_decline_into_plink() {
    let computer = target(Some("p@ss"));
    let ssh = Ssh { key_file: Some(s("key.ppk")) };
    let p = ssh.connect_invocation(&computer, words(&["uname"]), None, false);
    assert_eq!(p.feeder.program_path, "cmd");
    assert_eq!(p.feeder.all_program_args, words(&["/c", "echo", "n"]));
    assert_eq!(p.main.program_path, "cmd");
    assert_eq!(
        p.main.all_program_args,
        words(&[
            "/c", "plink.exe", "-ssh", "10.0.0.5", "-l", "admin", "-no-antispoof", "-pw", "p@ss",
            "-i", "key.ppk", "uname",
        ])
    );
}

#[test]
fn ssh_elevated_with_and_without_password() {
    let ssh = Ssh { key_file: None };
    let with = ssh.prepare_command(&target(Some("pw")), words(&["cat", "/etc/shadow"]), None, true);
    assert_eq!(with.last().unwrap(), "echo pw | sudo -S cat /etc/shadow");
    let without = ssh.prepare_command(&target(None), words(&["id"]), None, true);
    assert_eq!(
        without,
        words(&["plink.exe", "-ssh", "10.0.0.5", "-l", "admin", "-no-antispoof", "sudo -S id"])
    );
}

#[test]
fn local_is_a_pass_through() {
    let local = Local::new();
    assert_eq!(local.computer().address, "127.0.0.1");
    assert_eq!(local.computer().username, "");
    assert!(local.computer().password.is_none());
    assert_eq!(local.connect_method_name(), "LOCAL");
    let c = words(&["ipconfig", "/all"]);
    assert_eq!(local.prepare_command(&target(None), c.clone(), Some(s("out.txt")), true), c);
    assert_eq!(local.path_to_remote_form(&s("C:\\x")), "C:\\x");
}

#[test]
fn scp_copy_and_delete_share_credentials() {
    let scp = Scp { computer: target(Some("p@ss")), key_file: Some(s("id.ppk")) };
    let source = scp.path_to_remote_form(&s("/var/log/syslog"));
    assert_eq!(source, "10.0.0.5:/var/log/syslog");
    let copy = scp.copy_invocation(&source, &s("evidence/syslog"));
    assert_eq!(copy.main.program_path, "pscp.exe");
    assert_eq!(
        copy.main.all_program_args,
        words(&["-l", "admin", "-pw", "p@ss", "-i", "id.ppk", "10.0.0.5:/var/log/syslog", "evidence/syslog"])
    );
    let delete = scp.delete_invocation(&s("/tmp/staged"));
    assert_eq!(delete.main.program_path, "plink.exe");
    assert_eq!(
        delete.main.all_program_args,
        words(&[
            "-ssh", "10.0.0.5", "-l", "admin", "-no-antispoof", "-pw", "p@ss", "-i", "id.ppk",
            "rm", "-f", "/tmp/staged",
        ])
    );
    assert_eq!(delete.feeder.all_program_args, words(&["/c", "echo", "n"]));
    assert_eq!(scp.method_name(), "SCP");
}

#[test]
fn report_paths_differ_by_each_component() {
    let a = target(None);
    let b = Computer::new(s("10.0.0.6"), s("admin"), None, None).unwrap();
    let dir = s("ev");
    let p = |c: &Computer, prefix: &str, m: AccessMethod, k: ReportKind| {
        create_report_path(c, &dir, &s(prefix), m, k)
    };
    let base = p(&a, "netstat", AccessMethod::PsExec, ReportKind::Text);
    assert_eq!(base, "ev/PSEXEC_10.0.0.5_netstat.txt");
    assert_ne!(base, p(&b, "netstat", AccessMethod::PsExec, ReportKind::Text));
    assert_ne!(base, p(&a, "netstat2", AccessMethod::PsExec, ReportKind::Text));
    assert_ne!(base, p(&a, "netstat", AccessMethod::Wmi, ReportKind::Text));
    assert_eq!(p(&a, "memory", AccessMethod::Rdp, ReportKind::Image), "ev/RDP_10.0.0.5_memory.img");
}

#[test]
fn computer_rejects_malformed_address() {
    assert!(Computer::new(s(""), s("u"), None, None).is_none());
    assert!(Computer::new(s("host_name"), s("u"), None, None).is_none());
    assert!(Computer::new(s("a/b"), s("u"), None, None).is_none());
    assert!(Computer::new(s("fe80::1"), s("u"), None, None).is_some());
    assert!(Computer::new(s("dc-01.corp.local"), s("u"), None, None).is_some());
}

#[test]
fn fallback_stops_at_first_success() {
    assert_eq!(drive(Schedule::fallback(4), &[false, false, true, true]), vec![0, 1, 2]);
    assert_eq!(drive(Schedule::fallback(3), &[true, false, false]), vec![0]);
    assert_eq!(drive(Schedule::fallback(3), &[false, false, false]), vec![0, 1, 2]);
    assert_eq!(drive(Schedule::fallback(0), &[]), Vec::<usize>::new());
}

#[test]
fn pipeline_runs_every_job_after_failures() {
    assert_eq!(drive(Schedule::pipeline(4), &[false, true, false, false]), vec![0, 1, 2, 3]);
    assert_eq!(drive(Schedule::pipeline(3), &[true, true, true]), vec![0, 1, 2]);
}

#[test]
fn file_retrieval_falls_back_from_first_remote_exec_method() {
    let mut o = opts();
    o.psexec = true;
    o.psrem = true;
    let copiers = create_file_retrieval_copiers(&o);
    assert_eq!(copiers, vec![CopyMethod::XCopy, CopyMethod::PsCopy]);
    let mut schedule = Schedule::fallback(copiers.len());
    let mut attempts = Vec::new();
    while let Some(i) = schedule.next_candidate() {
        attempts.push(copiers[i]);
        schedule.record(copiers[i] == CopyMethod::PsCopy);
    }
    assert_eq!(attempts, vec![CopyMethod::XCopy, CopyMethod::PsCopy]);
    assert!(schedule.any_succeeded());

    let mut failing = Schedule::fallback(copiers.len());
    while failing.next_candidate().is_some() {
        failing.record(false);
    }
    assert!(!failing.any_succeeded());
    assert_eq!(failing.attempted, 2);
}

#[test]
fn memory_imaging_timeout_is_a_failure_without_retry() {
    let mut o = opts();
    o.psexec = true;
    o.rdp = true;
    o.rdp_wait_time = 2;
    assert_eq!(wait_timeout_secs(2), Some(120));
    let acquirers = create_memory_acquirers(&target(None), &s("ev"), &o);
    let methods: Vec<AccessMethod> = acquirers.iter().map(|a| a.method).collect();
    assert_eq!(methods, vec![AccessMethod::PsExec, AccessMethod::Rdp]);
    assert_eq!(acquirers[1].timeout_secs, Some(120));
    assert_eq!(acquirers[0].timeout_secs, None);

    let timed_out = imaging_outcome(false, false);
    assert_eq!(timed_out, ImagingOutcome::TimedOut);
    assert!(!timed_out.is_success());
    let mut schedule = Schedule::fallback(2);
    assert_eq!(schedule.next_candidate(), Some(0));
    schedule.record(timed_out.is_success());
    assert_eq!(schedule.next_candidate(), Some(1));
    schedule.record(timed_out.is_success());
    assert_eq!(schedule.next_candidate(), None);
    assert!(!schedule.any_succeeded());
}

#[test]
fn imaging_outcomes_and_waits() {
    assert_eq!(imaging_outcome(true, true), ImagingOutcome::Completed);
    assert!(imaging_outcome(true, true).is_success());
    assert_eq!(imaging_outcome(true, false), ImagingOutcome::Failed);
    assert_eq!(wait_timeout_secs(0), Some(0));
    assert_eq!(wait_timeout_secs(u64::MAX), None);
}

#[test]
fn evidence_selection_with_all_and_with_flags() {
    let mut o = opts();
    o.all = true;
    o.nla = true;
    let c = target(None);
    let all = create_evidence_acquirers(&c, &s("ev"), &o, Some(s("k")));
    let methods: Vec<AccessMethod> = all.iter().map(|a| a.method).collect();
    assert_eq!(
        methods,
        vec![AccessMethod::PsExec, AccessMethod::Wmi, AccessMethod::PsRemote, AccessMethod::Rdp]
    );
    assert!(all[3].nla && !all[0].nla);
    assert!(all.iter().all(|a| a.key_file.is_none() && a.store_directory == "ev"));

    let mut o = opts();
    o.rdp = true;
    o.ssh = true;
    o.local = true;
    o.wmi = true;
    let some = create_evidence_acquirers(&c, &s("ev"), &o, Some(s("k")));
    let methods: Vec<AccessMethod> = some.iter().map(|a| a.method).collect();
    assert_eq!(
        methods,
        vec![AccessMethod::Local, AccessMethod::Wmi, AccessMethod::Rdp, AccessMethod::Ssh]
    );
    assert_eq!(some[3].key_file, Some(s("k")));
    assert_eq!(some[3].computer.address, "10.0.0.5");

    let mut o = opts();
    o.psexec = true;
    o.local = true;
    let m: Vec<AccessMethod> =
        create_evidence_acquirers(&c, &s("ev"), &o, None).iter().map(|a| a.method).collect();
    assert_eq!(m, vec![AccessMethod::Local, AccessMethod::PsExec]);
}

#[test]
fn command_and_registry_selection() {
    let c = target(None);
    let mut o = opts();
    o.all = true;
    let m: Vec<AccessMethod> =
        create_command_runners(&c, &s("ev"), &o, None).iter().map(|a| a.method).collect();
    assert_eq!(m, vec![AccessMethod::PsExec, AccessMethod::PsRemote]);
    let m: Vec<AccessMethod> =
        create_registry_acquirers(&c, &s("ev"), &o).iter().map(|a| a.method).collect();
    assert_eq!(m, vec![AccessMethod::PsExec, AccessMethod::PsRemote, AccessMethod::Rdp]);

    let mut o = opts();
    o.wmi = true;
    o.ssh = true;
    o.psrem = true;
    let m: Vec<AccessMethod> =
        create_command_runners(&c, &s("ev"), &o, None).iter().map(|a| a.method).collect();
    assert_eq!(m, vec![AccessMethod::PsRemote, AccessMethod::Wmi, AccessMethod::Ssh]);
    let mut o2 = opts();
    o2.psexec = true;
    o2.local = true;
    o2.rdp = true;
    o2.ssh = true;
    let m2: Vec<AccessMethod> =
        create_command_runners(&c, &s("ev"), &o2, None).iter().map(|a| a.method).collect();
    assert_eq!(
        m2,
        vec![AccessMethod::Local, AccessMethod::PsExec, AccessMethod::Rdp, AccessMethod::Ssh]
    );
    let m: Vec<AccessMethod> =
        create_registry_acquirers(&c, &s("ev"), &o).iter().map(|a| a.method).collect();
    assert_eq!(m, vec![AccessMethod::PsRemote]);
    assert!(create_registry_acquirers(&c, &s("ev"), &opts()).is_empty());
}

#[test]
fn copier_selection() {
    let mut o = opts();
    o.all = true;
    assert_eq!(create_windows_non_rdp_file_copiers(&o), vec![CopyMethod::XCopy, CopyMethod::PsCopy]);
    assert_eq!(
        create_file_retrieval_copiers(&o),
        vec![CopyMethod::XCopy, CopyMethod::PsCopy, CopyMethod::RdpCopy]
    );
    let mut o = opts();
    o.ssh = true;
    o.psexec = true;
    o.rdp = true;
    assert_eq!(create_file_retrieval_copiers(&o), vec![CopyMethod::Scp]);
    let mut o = opts();
    o.rdp = true;
    assert_eq!(create_windows_non_rdp_file_copiers(&o), Vec::<CopyMethod>::new());
    assert_eq!(create_file_retrieval_copiers(&o), vec![CopyMethod::RdpCopy]);
}

#[test]
fn joining_and_shell_wrapping() {
    assert_eq!(join_with_spaces(&words(&[])), "");
    assert_eq!(join_with_spaces(&words(&["a"])), "a");
    assert_eq!(join_with_spaces(&words(&["a", "b c", "d"])), "a b c d");
    let p = prepare_remote_process(words(&["dir", "C:\\"]));
    assert_eq!(p.program_path, "cmd");
    assert_eq!(p.all_program_args, words(&["/c", "dir", "C:\\"]));
    assert_eq!(AccessMethod::PsRemote.label(), "PSREMOTE");
}

#[test]
fn job_invocation_through_a_pipeline() {
    let mut o = opts();
    o.ssh = true;
    let c = target(Some("p@ss"));
    let runners = create_command_runners(&c, &s("ev"), &o, Some(s("id.ppk")));
    assert_eq!(runners.len(), 1);
    let job = Job {
        name: s("process list"),
        report_prefix: s("process-list"),
        command: words(&["ps", "-ef"]),
        elevated: true,
    };
    let inv = runners[0].invocation_for(&job);
    assert_eq!(inv.command, words(&["ps", "-ef"]));
    assert_eq!(inv.store_directory, Some(s("ev")));
    assert_eq!(inv.report_filename_prefix, "process-list");
    assert!(inv.elevated);
    assert_eq!(inv.remote_computer.address, "10.0.0.5");
    assert_eq!(runners[0].report_path_for(&job), "ev/SSH_10.0.0.5_process-list.txt");
    let ssh = Ssh { key_file: runners[0].key_file.clone() };
    assert_eq!(ssh.report_path_for(&inv), Some(s("ev/SSH_10.0.0.5_process-list.txt")));
}

#[test]
fn ssh_connect_invocation_keeps_elevation() {
    let computer = target(Some("pw"));
    let ssh = Ssh { key_file: None };
    let p = ssh.connect_invocation(&computer, words(&["cat", "/etc/shadow"]), Some(s("out.txt")), true);
    assert_eq!(
        p.main.all_program_args,
        words(&[
            "/c", "plink.exe", "-ssh", "10.0.0.5", "-l", "admin", "-no-antispoof", "-pw", "pw",
            "echo pw | sudo -S cat /etc/shadow", ">", "out.txt",
        ])
    );
}

#[test]
fn memory_selection_without_rdp_accepts_any_wait() {
    let mut o = opts();
    o.psexec = true;
    o.psrem = true;
    o.rdp_wait_time = u64::MAX;
    let acquirers = create_memory_acquirers(&target(None), &s("ev"), &o);
    let methods: Vec<AccessMethod> = acquirers.iter().map(|a| a.method).collect();
    assert_eq!(methods, vec![AccessMethod::PsExec, AccessMethod::PsRemote]);
    assert!(acquirers.iter().all(|a| a.timeout_secs.is_none()));
}

#[test]
fn no_method_selected_is_detected() {
    assert!(!any_method_selected(&opts()));
    let mut o = opts();
    o.wmi = true;
    assert!(any_method_selected(&o));
    let mut o = opts();
    o.all = true;
    assert!(any_method_selected(&o));
}
