use vstd::prelude::*;
use crate::digest::{digest_text, hex_digits, lemma_lower_hex_chars, md5_of};
use crate::platform::Platform;
use crate::text::{has_prefix, is_white_space, lemma_trim_unchanged, trim, trim_spec};

verus! {

/// One file-system step of installing the embedded artifact.
#[derive(Clone, Copy, Debug, PartialEq, Eq, Structural)]
pub enum FsStep {
    /// Create the per-user data directory and its parents.
    CreateDataDir,
    /// Write the artifact's bytes to the backend path.
    WriteBinary,
    /// Mark the backend file executable.
    SetExecutable,
    /// Record the artifact's digest in the sidecar file.
    WriteSidecar,
}

/// What is on disk at the install location: whether the backend file exists,
/// and the sidecar's text where the sidecar exists.
pub struct InstallView {
    pub binary_exists: bool,
    pub sidecar: Option<Seq<char>>,
}

/// The install is current: the backend exists and the sidecar, trimmed,
/// equals the embedded digest.
pub open spec fn is_current(disk: InstallView, digest: Seq<char>) -> bool {
    disk.binary_exists && match disk.sidecar {
        Some(text) => trim_spec(text) == digest,
        None => false,
    }
}

/// The steps one run of the extractor takes.
pub open spec fn extraction_steps_spec(p: Platform, needed: bool) -> Seq<FsStep> {
    if !needed {
        seq![FsStep::CreateDataDir]
    } else if p == Platform::Windows {
        seq![FsStep::CreateDataDir, FsStep::WriteBinary, FsStep::WriteSidecar]
    } else {
        seq![FsStep::CreateDataDir, FsStep::WriteBinary, FsStep::SetExecutable, FsStep::WriteSidecar]
    }
}

pub open spec fn apply_step(disk: InstallView, step: FsStep, digest: Seq<char>) -> InstallView {
    match step {
        FsStep::WriteBinary => InstallView { binary_exists: true, sidecar: disk.sidecar },
        FsStep::WriteSidecar => InstallView { binary_exists: disk.binary_exists, sidecar: Some(digest) },
        _ => disk,
    }
}

/// The install location after `steps` have been carried out in order.
pub open spec fn apply_steps(disk: InstallView, steps: Seq<FsStep>, digest: Seq<char>) -> InstallView
    decreases steps.len(),
{
    if steps.len() == 0 {
        disk
    } else {
        apply_steps(apply_step(disk, steps[0], digest), steps.drop_first(), digest)
    }
}

/// How many times `steps` write the backend file.
pub open spec fn binary_writes(steps: Seq<FsStep>) -> nat
    decreases steps.len(),
{
    if steps.len() == 0 {
        0
    } else {
        (if steps[0] == FsStep::WriteBinary { 1nat } else { 0nat }) + binary_writes(steps.drop_first())
    }
}

/// The steps a run takes on `disk` for an artifact with digest text `digest`.
pub open spec fn run_steps(p: Platform, disk: InstallView, digest: Seq<char>) -> Seq<FsStep> {
    extraction_steps_spec(p, !is_current(disk, digest))
}

/// The install location after one run.
pub open spec fn after_run(p: Platform, disk: InstallView, digest: Seq<char>) -> InstallView {
    apply_steps(disk, run_steps(p, disk, digest), digest)
}

pub open spec fn opt_str_view(o: Option<&str>) -> Option<Seq<char>> {
    match o {
        Some(s) => Some(s@),
        None => None,
    }
}

/// Whether two strings hold the same characters.
fn same_text(a: &str, b: &str) -> (r: bool)
    ensures
        r == (a@ == b@),
{
    let r = a.unicode_len() == b.unicode_len() && has_prefix(a, b);
    proof {
        if r {
            assert(a@ =~= b@);
        }
    }
    r
}

/// Whether the embedded artifact must be written out. `sidecar` is the text
/// of the digest sidecar where that file exists (empty where it could not be
/// read).
pub fn needs_extraction(binary_exists: bool, sidecar: Option<&str>, embedded_digest: &str) -> (r: bool)
    ensures
        r == !is_current(
            InstallView { binary_exists, sidecar: opt_str_view(sidecar) },
            embedded_digest@,
        ),
{
    if !binary_exists {
        return true;
    }
    match sidecar {
        Some(text) => !same_text(trim(text), embedded_digest),
        None => true,
    }
}

/// The file-system steps that installing the artifact takes on `p`, in order.
pub fn plan_extraction(p: Platform, binary_exists: bool, sidecar: Option<&str>, embedded_digest: &str) -> (r: Vec<FsStep>)
    ensures
        r@ == run_steps(
            p,
            InstallView { binary_exists, sidecar: opt_str_view(sidecar) },
            embedded_digest@,
        ),
{
    let needed = needs_extraction(binary_exists, sidecar, embedded_digest);
    let mut steps: Vec<FsStep> = Vec::new();
    steps.push(FsStep::CreateDataDir);
    if needed {
        steps.push(FsStep::WriteBinary);
        if p != Platform::Windows {
            steps.push(FsStep::SetExecutable);
        }
        steps.push(FsStep::WriteSidecar);
    }
    proof {
        assert(steps@ =~= extraction_steps_spec(p, needed));
    }
    steps
}

proof fn lemma_digest_trimmed(payload: Seq<u8>)
    ensures
        trim_spec(digest_text(payload)) == digest_text(payload),
{
    let d = digest_text(payload);
    lemma_lower_hex_chars(md5_of(payload));
    assert forall|c: char| hex_digits().contains(c) implies !is_white_space(c) by {
        let i = choose|i: int| 0 <= i < hex_digits().len() && hex_digits()[i] == c;
        assert(0 <= i < 16);
    }
    if d.len() > 0 {
        assert(hex_digits().contains(d[0]));
        assert(hex_digits().contains(d[d.len() - 1]));
    }
    lemma_trim_unchanged(d);
}

proof fn lemma_run_effect(p: Platform, disk: InstallView, digest: Seq<char>)
    ensures
        is_current(disk, digest) ==> binary_writes(run_steps(p, disk, digest)) == 0 && after_run(p, disk, digest) == disk,
        !is_current(disk, digest) ==> binary_writes(run_steps(p, disk, digest)) == 1 && after_run(p, disk, digest) == (InstallView { binary_exists: true, sidecar: Some(digest) }),
{
    let s = run_steps(p, disk, digest);
    reveal_with_fuel(binary_writes, 5);
    reveal_with_fuel(apply_steps, 5);
    if !is_current(disk, digest) {
        if p == Platform::Windows {
            assert(s.drop_first().drop_first().drop_first() =~= Seq::<FsStep>::empty());
        } else {
            assert(s.drop_first().drop_first().drop_first().drop_first() =~= Seq::<FsStep>::empty());
        }
    } else {
        assert(s.drop_first() =~= Seq::<FsStep>::empty());
    }
}

/// Running the extractor twice with the same artifact writes the backend at
/// most once, exactly once where it was not installed before, and not at all
/// the second time.
pub proof fn lemma_extraction_idempotent(p: Platform, disk: InstallView, payload: Seq<u8>)
    ensures
        binary_writes(run_steps(p, disk, digest_text(payload))) <= 1,
        !disk.binary_exists || disk.sidecar is None ==> binary_writes(run_steps(p, disk, digest_text(payload))) == 1,
        binary_writes(run_steps(p, after_run(p, disk, digest_text(payload)), digest_text(payload))) == 0,
{
    let d = digest_text(payload);
    lemma_run_effect(p, disk, d);
    lemma_digest_trimmed(payload);
    lemma_run_effect(p, after_run(p, disk, d), d);
}

/// Replacing the artifact by one with another digest makes the next run
/// write the backend exactly once, and leaves the new digest in the sidecar.
pub proof fn lemma_upgrade_reextracts(p: Platform, disk: InstallView, old_payload: Seq<u8>, new_payload: Seq<u8>)
    requires
        digest_text(old_payload) != digest_text(new_payload),
    ensures
        binary_writes(run_steps(p, after_run(p, disk, digest_text(old_payload)), digest_text(new_payload))) == 1,
        after_run(p, after_run(p, disk, digest_text(old_payload)), digest_text(new_payload)).sidecar == Some(digest_text(new_payload)),
        after_run(p, after_run(p, disk, digest_text(old_payload)), digest_text(new_payload)).binary_exists,
{
    let d1 = digest_text(old_payload);
    let d2 = digest_text(new_payload);
    lemma_run_effect(p, disk, d1);
    lemma_digest_trimmed(old_payload);
    lemma_run_effect(p, after_run(p, disk, d1), d2);
}

} // verus!
