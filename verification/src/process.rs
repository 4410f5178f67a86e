//! Choosing the client among the running processes, and its own module
//! among the modules it has loaded.

use crate::read::MemoryError;
use vstd::prelude::*;
use vstd::string::StringSliceAdditionalSpecFns;

verus! {

/// One entry of the list of running processes.
#[derive(Debug)]
pub struct ProcessEntry {
    /// The process id.
    pub pid: u32,
    /// The name of the executable file, in a buffer that a NUL ends unless
    /// the name fills it.
    pub exe_file: Vec<u8>,
}

/// Whether the name in the buffer `buf` is `name`: the buffer begins with the
/// bytes of `name`, none of which is NUL, and ends there or goes on with a NUL.
pub open spec fn holds_name(buf: Seq<u8>, name: Seq<u8>) -> bool {
    &&& name.len() <= buf.len()
    &&& forall|j: int| 0 <= j < name.len() ==> buf[j] == name[j] && name[j] != 0
    &&& name.len() == buf.len() || buf[name.len() as int] == 0
}

/// The number of bytes before the first NUL in `buf`, or the length of `buf`
/// where it holds no NUL: the length of the name in the buffer.
pub fn path_len(buf: &[u8]) -> (r: usize)
    ensures
        r <= buf@.len(),
        forall|j: int| 0 <= j < r ==> buf@[j] != 0,
        r == buf@.len() || buf@[r as int] == 0,
{
    let mut len: usize = 0;
    while len < buf.len() && buf[len] != 0
        invariant
            len <= buf@.len(),
            forall|j: int| 0 <= j < len ==> buf@[j] != 0,
        decreases buf@.len() - len,
    {
        len += 1;
    }
    len
}

/// Whether the name in the buffer `buf` is `name`, byte for byte.
pub fn has_name(buf: &[u8], name: &[u8]) -> (r: bool)
    ensures
        r == holds_name(buf@, name@),
{
    let len = path_len(buf);
    if len != name.len() {
        proof {
            if holds_name(buf@, name@) {
                if name@.len() < len {
                    assert(buf@[name@.len() as int] != 0);
                } else {
                    assert(buf@[len as int] == name@[len as int]);
                }
            }
        }
        return false;
    }
    let mut i: usize = 0;
    while i < len
        invariant
            len == name@.len(),
            len <= buf@.len(),
            i <= len,
            forall|j: int| 0 <= j < len ==> buf@[j] != 0,
            forall|j: int| 0 <= j < i ==> buf@[j] == name@[j],
        decreases len - i,
    {
        if buf[i] != name[i] {
            return false;
        }
        i += 1;
    }
    true
}

/// Finds the process whose executable file has exactly the name `proc_name`
/// and returns its id; of several, the first in the list.
pub fn find_proc(entries: &[ProcessEntry], proc_name: &str) -> (r: Result<u32, MemoryError>)
    ensures
        match r {
            Ok(pid) => exists|i: int|
                {
                    &&& 0 <= i < entries@.len()
                    &&& holds_name(#[trigger] entries@[i].exe_file@, proc_name.spec_bytes())
                    &&& entries@[i].pid == pid
                    &&& forall|j: int|
                        0 <= j < i ==> !holds_name(
                            #[trigger] entries@[j].exe_file@,
                            proc_name.spec_bytes(),
                        )
                },
            Err(e) => e == MemoryError::ProcessNotFound && forall|i: int|
                0 <= i < entries@.len() ==> !holds_name(
                    #[trigger] entries@[i].exe_file@,
                    proc_name.spec_bytes(),
                ),
        },
{
    let name = proc_name.as_bytes();
    let mut i: usize = 0;
    while i < entries.len()
        invariant
            i <= entries@.len(),
            name@ == proc_name.spec_bytes(),
            forall|j: int|
                0 <= j < i ==> !holds_name(
                    #[trigger] entries@[j].exe_file@,
                    proc_name.spec_bytes(),
                ),
        decreases entries@.len() - i,
    {
        if has_name(entries[i].exe_file.as_slice(), name) {
            return Ok(entries[i].pid);
        }
        i += 1;
    }
    Err(MemoryError::ProcessNotFound)
}

/// Whether two buffers hold the same bytes.
fn same_bytes(a: &[u8], b: &[u8]) -> (r: bool)
    ensures
        r == (a@ == b@),
{
    if a.len() != b.len() {
        return false;
    }
    let mut i: usize = 0;
    while i < a.len()
        invariant
            a@.len() == b@.len(),
            i <= a@.len(),
            forall|j: int| 0 <= j < i ==> a@[j] == b@[j],
        decreases a@.len() - i,
    {
        if a[i] != b[i] {
            return false;
        }
        i += 1;
    }
    assert(a@ =~= b@);
    true
}

/// Finds the process's own module among the modules it has loaded: the
/// first whose file name, as the buffer holds it, is that of the process.
/// Returns its place in the list.
pub fn get_proc_info(proc_file_name: &[u8], module_file_names: &[Vec<u8>]) -> (r: Result<
    usize,
    MemoryError,
>)
    ensures
        match r {
            Ok(i) => {
                &&& i < module_file_names@.len()
                &&& module_file_names@[i as int]@ == proc_file_name@
                &&& forall|j: int|
                    0 <= j < i ==> (#[trigger] module_file_names@[j])@ != proc_file_name@
            },
            Err(e) => e == MemoryError::ModuleNotFound && forall|j: int|
                0 <= j < module_file_names@.len() ==> (#[trigger] module_file_names@[j])@
                    != proc_file_name@,
        },
{
    let mut i: usize = 0;
    while i < module_file_names.len()
        invariant
            i <= module_file_names@.len(),
            forall|j: int| 0 <= j < i ==> (#[trigger] module_file_names@[j])@ != proc_file_name@,
        decreases module_file_names@.len() - i,
    {
        if same_bytes(proc_file_name, module_file_names[i].as_slice()) {
            return Ok(i);
        }
        i += 1;
    }
    Err(MemoryError::ModuleNotFound)
}

} // verus!
