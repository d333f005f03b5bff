use vstd::prelude::*;

verus! {

/// The ways of reaching a machine: direct execution, the remote-execution tools,
/// desktop-protocol automation and secure shell.
#[derive(Clone, Copy, Debug, PartialEq, Eq, Structural)]
pub enum AccessMethod {
    Local,
    PsExec,
    Wmi,
    PsRemote,
    Rdp,
    Ssh,
}

/// The stable label of a method, used in logs and report names.
pub open spec fn method_label(m: AccessMethod) -> Seq<char> {
    match m {
        AccessMethod::Local => seq!['L', 'O', 'C', 'A', 'L'],
        AccessMethod::PsExec => seq!['P', 'S', 'E', 'X', 'E', 'C'],
        AccessMethod::Wmi => seq!['W', 'M', 'I'],
        AccessMethod::PsRemote => seq!['P', 'S', 'R', 'E', 'M', 'O', 'T', 'E'],
        AccessMethod::Rdp => seq!['R', 'D', 'P'],
        AccessMethod::Ssh => seq!['S', 'S', 'H'],
    }
}

/// Different methods have different labels, and no label holds `_`.
pub proof fn lemma_method_labels_distinct(m1: AccessMethod, m2: AccessMethod)
    ensures
        method_label(m1) == method_label(m2) ==> m1 == m2,
        forall|i: int| 0 <= i < method_label(m1).len() ==> #[trigger] method_label(m1)[i] != '_',
{
    if method_label(m1) == method_label(m2) {
        assert(method_label(m1).len() == method_label(m2).len());
        assert(method_label(m1)[0] == method_label(m2)[0]);
    }
}

impl AccessMethod {
    /// The label of this method.
    pub fn label(&self) -> (r: &'static str)
        ensures
            r@ == method_label(*self),
    {
        proof {
            reveal_strlit("LOCAL");
            reveal_strlit("PSEXEC");
            reveal_strlit("WMI");
            reveal_strlit("PSREMOTE");
            reveal_strlit("RDP");
            reveal_strlit("SSH");
        }
        match self {
            AccessMethod::Local => "LOCAL",
            AccessMethod::PsExec => "PSEXEC",
            AccessMethod::Wmi => "WMI",
            AccessMethod::PsRemote => "PSREMOTE",
            AccessMethod::Rdp => "RDP",
            AccessMethod::Ssh => "SSH",
        }
    }
}

} // verus!
