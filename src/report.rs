use vstd::prelude::*;

use crate::computer::{is_host_address, Computer};
use crate::method::{lemma_method_labels_distinct, method_label, AccessMethod};

verus! {

/// What a report file holds: captured text, or a binary image.
#[derive(Clone, Copy, Debug, PartialEq, Eq, Structural)]
pub enum ReportKind {
    Text,
    Image,
}

/// The file extension of a report kind.
pub open spec fn kind_extension(k: ReportKind) -> Seq<char> {
    match k {
        ReportKind::Text => seq!['.', 't', 'x', 't'],
        ReportKind::Image => seq!['.', 'i', 'm', 'g'],
    }
}

/// The report file name: `<method>_<address>_<prefix><extension>`.
pub open spec fn report_file_name(
    address: Seq<char>,
    prefix: Seq<char>,
    method: AccessMethod,
    kind: ReportKind,
) -> Seq<char> {
    method_label(method) + seq!['_'] + address + seq!['_'] + prefix + kind_extension(kind)
}

/// The report path: the file name inside the store directory.
pub open spec fn report_path(
    dir: Seq<char>,
    address: Seq<char>,
    prefix: Seq<char>,
    method: AccessMethod,
    kind: ReportKind,
) -> Seq<char> {
    dir + seq!['/'] + report_file_name(address, prefix, method, kind)
}

/// Builds the path of the report that `method` writes for the job named by
/// `prefix` on `computer`, inside `store_directory`.
pub fn create_report_path(
    computer: &Computer,
    store_directory: &String,
    prefix: &String,
    method: AccessMethod,
    kind: ReportKind,
) -> (r: String)
    ensures
        r@ == report_path(store_directory@, computer.address@, prefix@, method, kind),
{
    proof {
        reveal_strlit("/");
        reveal_strlit("_");
        reveal_strlit(".txt");
        reveal_strlit(".img");
    }
    let mut r = store_directory.clone();
    r.append("/");
    r.append(method.label());
    r.append("_");
    r.append(computer.address.as_str());
    r.append("_");
    r.append(prefix.as_str());
    match kind {
        ReportKind::Text => r.append(".txt"),
        ReportKind::Image => r.append(".img"),
    }
    assert(r@ =~= report_path(store_directory@, computer.address@, prefix@, method, kind));
    r
}

/// Splitting at the first separator: two sequences without `sep`, each followed by
/// `sep` and a rest, are equal as wholes only if the heads and the rests are equal.
pub proof fn lemma_split_at_separator(
    x1: Seq<char>,
    r1: Seq<char>,
    x2: Seq<char>,
    r2: Seq<char>,
    sep: char,
)
    requires
        forall|i: int| 0 <= i < x1.len() ==> #[trigger] x1[i] != sep,
        forall|i: int| 0 <= i < x2.len() ==> #[trigger] x2[i] != sep,
        x1 + seq![sep] + r1 == x2 + seq![sep] + r2,
    ensures
        x1 == x2,
        r1 == r2,
{
    let w1 = x1 + seq![sep] + r1;
    let w2 = x2 + seq![sep] + r2;
    if x1.len() < x2.len() {
        assert(w1[x1.len() as int] == sep);
        assert(w2[x1.len() as int] == x2[x1.len() as int]);
    } else if x2.len() < x1.len() {
        assert(w2[x2.len() as int] == sep);
        assert(w1[x2.len() as int] == x1[x2.len() as int]);
    }
    assert(x1 =~= w1.subrange(0, x1.len() as int));
    assert(x2 =~= w2.subrange(0, x2.len() as int));
    assert(r1 =~= w1.subrange(x1.len() as int + 1, w1.len() as int));
    assert(r2 =~= w2.subrange(x2.len() as int + 1, w2.len() as int));
}

/// Report paths are unique within one run: in one store directory, two reports
/// of the same path come from the same target address, job prefix, access method
/// and kind.
pub proof fn lemma_report_paths_unique(
    dir: Seq<char>,
    address1: Seq<char>,
    prefix1: Seq<char>,
    method1: AccessMethod,
    kind1: ReportKind,
    address2: Seq<char>,
    prefix2: Seq<char>,
    method2: AccessMethod,
    kind2: ReportKind,
)
    requires
        is_host_address(address1),
        is_host_address(address2),
    ensures
        report_path(dir, address1, prefix1, method1, kind1) == report_path(
            dir,
            address2,
            prefix2,
            method2,
            kind2,
        ) ==> address1 == address2 && prefix1 == prefix2 && method1 == method2 && kind1
            == kind2,
{
    let n1 = report_file_name(address1, prefix1, method1, kind1);
    let n2 = report_file_name(address2, prefix2, method2, kind2);
    if report_path(dir, address1, prefix1, method1, kind1) == report_path(
        dir,
        address2,
        prefix2,
        method2,
        kind2,
    ) {
        let p1 = dir + seq!['/'] + n1;
        let p2 = dir + seq!['/'] + n2;
        assert(n1 =~= p1.subrange(dir.len() as int + 1, p1.len() as int));
        assert(n2 =~= p2.subrange(dir.len() as int + 1, p2.len() as int));
        lemma_method_labels_distinct(method1, method2);
        lemma_method_labels_distinct(method2, method1);
        let t1 = address1 + seq!['_'] + prefix1 + kind_extension(kind1);
        let t2 = address2 + seq!['_'] + prefix2 + kind_extension(kind2);
        assert(n1 =~= method_label(method1) + seq!['_'] + t1);
        assert(n2 =~= method_label(method2) + seq!['_'] + t2);
        lemma_split_at_separator(method_label(method1), t1, method_label(method2), t2, '_');
        let u1 = prefix1 + kind_extension(kind1);
        let u2 = prefix2 + kind_extension(kind2);
        assert(t1 =~= address1 + seq!['_'] + u1);
        assert(t2 =~= address2 + seq!['_'] + u2);
        lemma_split_at_separator(address1, u1, address2, u2, '_');
        assert(prefix1.len() == prefix2.len());
        assert(prefix1 =~= u1.subrange(0, prefix1.len() as int));
        assert(prefix2 =~= u2.subrange(0, prefix2.len() as int));
        assert(kind_extension(kind1) =~= u1.subrange(prefix1.len() as int, u1.len() as int));
        assert(kind_extension(kind2) =~= u2.subrange(prefix2.len() as int, u2.len() as int));
        if kind1 != kind2 {
            assert(kind_extension(kind1)[1] != kind_extension(kind2)[1]);
        }
    }
}

} // verus!
