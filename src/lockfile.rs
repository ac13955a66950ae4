//! The discovery descriptor that advertises a running server, its file name,
//! and the filesystem steps that create and remove it.
use vstd::prelude::*;

use crate::text::{decimal, decimal_string};

verus! {

/// Transport the descriptor advertises.
pub open spec fn transport_text() -> Seq<char> {
    "ws"@
}

/// The discovery descriptor written for a bound port.
pub struct LockFile {
    pub pid: u32,
    pub workspace_folders: Vec<String>,
    pub ide_name: String,
    pub transport: String,
    pub auth_token: String,
}

impl LockFile {
    /// The descriptor of process `pid`, named `ide_name`, serving
    /// `workspace_folder`, with the token clients must present.
    pub fn new(pid: u32, workspace_folder: String, ide_name: String, auth_token: String) -> (r: LockFile)
        ensures
            r.pid == pid,
            r.workspace_folders@.len() == 1,
            r.workspace_folders@[0] == workspace_folder,
            r.ide_name == ide_name,
            r.transport@ == transport_text(),
            r.auth_token == auth_token,
    {
        let mut folders: Vec<String> = Vec::new();
        folders.push(workspace_folder);
        LockFile {
            pid,
            workspace_folders: folders,
            ide_name,
            transport: String::from_str("ws"),
            auth_token,
        }
    }
}

/// The name of the descriptor file for `port`: `<port>.lock`.
pub open spec fn lock_file_name_text(port: u16) -> Seq<char> {
    decimal(port as nat) + ".lock"@
}

/// The descriptor file name for `port`.
pub fn lock_file_name(port: u16) -> (r: String)
    ensures
        r@ == lock_file_name_text(port),
{
    let mut s = decimal_string(port as u64);
    s.append(".lock");
    s
}

/// One filesystem operation on the discovery directory.
#[derive(Clone, Copy, Debug, PartialEq, Eq, Structural)]
pub enum LockStep {
    /// Create the discovery directory (and its parents).
    CreateDir,
    /// Remove the descriptor file of the port at hand.
    RemoveFile,
    /// Write the new descriptor file of the port at hand.
    WriteFile,
}

/// What the discovery directory holds: whether it exists, and the descriptor
/// stored for each port.
pub struct LockDir {
    pub exists: bool,
    pub files: Map<u16, LockFile>,
}

/// A missing directory holds no files.
pub open spec fn lock_dir_wf(dir: LockDir) -> bool {
    !dir.exists ==> dir.files.dom() == Set::<u16>::empty()
}

/// The directory after `step` on the file of `port`, writing `desc`. Writing
/// into a missing directory fails and changes nothing.
pub open spec fn apply_step(dir: LockDir, port: u16, desc: LockFile, step: LockStep) -> LockDir {
    match step {
        LockStep::CreateDir => LockDir { exists: true, files: dir.files },
        LockStep::RemoveFile => LockDir { exists: dir.exists, files: dir.files.remove(port) },
        LockStep::WriteFile => if dir.exists {
            LockDir { exists: true, files: dir.files.insert(port, desc) }
        } else {
            dir
        },
    }
}

/// The directory after each of `steps` in turn.
pub open spec fn apply_steps(dir: LockDir, port: u16, desc: LockFile, steps: Seq<LockStep>) -> LockDir
    decreases steps.len(),
{
    if steps.len() == 0 {
        dir
    } else {
        apply_steps(apply_step(dir, port, desc, steps[0]), port, desc, steps.drop_first())
    }
}

/// The steps that advertise a port: make sure the directory exists, remove a
/// descriptor left behind by a process that did not clean up, write the new one.
pub open spec fn create_steps(dir_exists: bool, file_exists: bool) -> Seq<LockStep> {
    (if dir_exists { Seq::empty() } else { seq![LockStep::CreateDir] })
        + (if file_exists { seq![LockStep::RemoveFile] } else { Seq::empty() })
        + seq![LockStep::WriteFile]
}

/// The steps that withdraw a port: remove its descriptor if there is one.
pub open spec fn remove_steps(dir_exists: bool, file_exists: bool) -> Seq<LockStep> {
    if dir_exists && file_exists {
        seq![LockStep::RemoveFile]
    } else {
        Seq::empty()
    }
}

/// The steps to advertise a port, given what the directory holds now.
pub fn create_lock_steps(dir_exists: bool, file_exists: bool) -> (r: Vec<LockStep>)
    ensures
        r@ == create_steps(dir_exists, file_exists),
{
    let mut steps: Vec<LockStep> = Vec::new();
    if !dir_exists {
        steps.push(LockStep::CreateDir);
    }
    if file_exists {
        steps.push(LockStep::RemoveFile);
    }
    steps.push(LockStep::WriteFile);
    assert(steps@ =~= create_steps(dir_exists, file_exists));
    steps
}

/// The steps to withdraw a port, given what the directory holds now. Absence
/// of the directory or of the file is no error: there is nothing to do.
pub fn remove_lock_steps(dir_exists: bool, file_exists: bool) -> (r: Vec<LockStep>)
    ensures
        r@ == remove_steps(dir_exists, file_exists),
{
    let mut steps: Vec<LockStep> = Vec::new();
    if dir_exists && file_exists {
        steps.push(LockStep::RemoveFile);
    }
    assert(steps@ =~= remove_steps(dir_exists, file_exists));
    steps
}

/// Advertising a port leaves the directory in place holding `desc` for that
/// port, and every other port's descriptor as it was.
pub proof fn lemma_create_writes_descriptor(dir: LockDir, port: u16, desc: LockFile)
    ensures
        ({
            let after = apply_steps(dir, port, desc, create_steps(dir.exists, dir.files.contains_key(port)));
            after.exists && after.files == dir.files.insert(port, desc)
        }),
{
    let steps = create_steps(dir.exists, dir.files.contains_key(port));
    reveal_with_fuel(apply_steps, 4);
    if dir.files.contains_key(port) {
        assert(dir.files.remove(port).insert(port, desc) =~= dir.files.insert(port, desc));
    }
    if dir.exists {
        if dir.files.contains_key(port) {
            assert(steps =~= seq![LockStep::RemoveFile, LockStep::WriteFile]);
        } else {
            assert(steps =~= seq![LockStep::WriteFile]);
        }
    } else {
        if dir.files.contains_key(port) {
            assert(steps =~= seq![LockStep::CreateDir, LockStep::RemoveFile, LockStep::WriteFile]);
        } else {
            assert(steps =~= seq![LockStep::CreateDir, LockStep::WriteFile]);
        }
    }
}

/// Withdrawing a port leaves no descriptor for it and every other one as it
/// was; withdrawing again changes nothing.
pub proof fn lemma_remove_clears_descriptor(dir: LockDir, port: u16, desc: LockFile)
    requires
        lock_dir_wf(dir),
    ensures
        ({
            let after = apply_steps(dir, port, desc, remove_steps(dir.exists, dir.files.contains_key(port)));
            after.exists == dir.exists && after.files == dir.files.remove(port)
        }),
{
    reveal_with_fuel(apply_steps, 2);
    if !(dir.exists && dir.files.contains_key(port)) {
        if !dir.exists {
            assert(!dir.files.dom().contains(port));
        }
        assert(dir.files.remove(port) =~= dir.files);
    }
}

/// Advertising a port, withdrawing it and advertising it again leaves exactly
/// one descriptor for that port, the one written last; other ports keep theirs.
pub proof fn lemma_create_remove_create(dir: LockDir, port: u16, first: LockFile, second: LockFile)
    requires
        lock_dir_wf(dir),
    ensures
        ({
            let d1 = apply_steps(dir, port, first, create_steps(dir.exists, dir.files.contains_key(port)));
            let d2 = apply_steps(d1, port, first, remove_steps(d1.exists, d1.files.contains_key(port)));
            let d3 = apply_steps(d2, port, second, create_steps(d2.exists, d2.files.contains_key(port)));
            &&& d3.files.contains_key(port)
            &&& d3.files[port] == second
            &&& d3.files == dir.files.insert(port, second)
        }),
{
    let d1 = apply_steps(dir, port, first, create_steps(dir.exists, dir.files.contains_key(port)));
    lemma_create_writes_descriptor(dir, port, first);
    lemma_remove_clears_descriptor(d1, port, first);
    let d2 = apply_steps(d1, port, first, remove_steps(d1.exists, d1.files.contains_key(port)));
    lemma_create_writes_descriptor(d2, port, second);
    assert(dir.files.insert(port, first).remove(port).insert(port, second) =~= dir.files.insert(port, second));
}

} // verus!
