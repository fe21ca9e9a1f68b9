//! Locating this process's legacy per-subsystem control-group directory.
//!
//! Under the legacy hierarchy each subsystem mounts its own tree, and the
//! process's position in it stands in the process-to-cgroup mapping file:
//! one line per hierarchy, three colon-separated fields, the third being
//! the group path. The introspector wants the first line whose text names
//! the relevant subsystem (`memory`, or `cpu` as `cpu,`/`cpu:`), and from
//! its third field the mount-point-qualified directory that holds the
//! subsystem's limit and usage files.

use vstd::prelude::*;
use crate::scan::contains_seq;
use crate::scan::copy_range;
use crate::scan::find_from;
use crate::scan::find_in_range;
use crate::scan::lemma_find_from_shift;
use crate::scan::range_contains;

verus! {

/// The bytes of `memory`.
pub open spec fn memory_word() -> Seq<u8> {
    seq![109u8, 101u8, 109u8, 111u8, 114u8, 121u8]
}

/// The bytes of `cpu,`.
pub open spec fn cpu_comma_word() -> Seq<u8> {
    seq![99u8, 112u8, 117u8, 44u8]
}

/// The bytes of `cpu:`.
pub open spec fn cpu_colon_word() -> Seq<u8> {
    seq![99u8, 112u8, 117u8, 58u8]
}

/// The bytes of `/sys/fs/cgroup/memory`, the legacy memory mount point.
pub open spec fn memory_mount_prefix() -> Seq<u8> {
    seq![
        47u8, 115u8, 121u8, 115u8, 47u8, 102u8, 115u8, 47u8, 99u8, 103u8, 114u8, 111u8, 117u8,
        112u8, 47u8, 109u8, 101u8, 109u8, 111u8, 114u8, 121u8,
    ]
}

/// The bytes of `/sys/fs/cgroup/cpu`, the legacy cpu mount point.
pub open spec fn cpu_mount_prefix() -> Seq<u8> {
    seq![
        47u8, 115u8, 121u8, 115u8, 47u8, 102u8, 115u8, 47u8, 99u8, 103u8, 114u8, 111u8, 117u8,
        112u8, 47u8, 99u8, 112u8, 117u8,
    ]
}

/// A line as a text reader sees it: without a trailing carriage return.
pub open spec fn strip_cr(line: Seq<u8>) -> Seq<u8> {
    if line.len() > 0 && line.last() == 13 {
        line.drop_last()
    } else {
        line
    }
}

/// Whether a mapping line names the wanted subsystem.
pub open spec fn line_selected(line: Seq<u8>, cpu: bool) -> bool {
    if cpu {
        contains_seq(line, cpu_comma_word()) || contains_seq(line, cpu_colon_word())
    } else {
        contains_seq(line, memory_word())
    }
}

/// The third colon-separated field of a line, when the line has one.
pub open spec fn third_colon_field(line: Seq<u8>) -> Option<Seq<u8>> {
    let i1 = find_from(line, 58, 0);
    if i1 >= line.len() {
        None
    } else {
        let i2 = find_from(line, 58, i1 + 1);
        if i2 >= line.len() {
            None
        } else {
            Some(line.subrange(i2 + 1, find_from(line, 58, i2 + 1)))
        }
    }
}

/// The group path taken from the first line that names the wanted
/// subsystem: `None` when no line does, and also when that line has no
/// third field.
pub open spec fn spec_subsystem_field(content: Seq<u8>, cpu: bool) -> Option<Seq<u8>>
    decreases content.len(),
{
    if content.len() == 0 {
        None
    } else {
        let e = find_from(content, 10, 0);
        if 0 <= e < content.len() {
            let line = strip_cr(content.subrange(0, e));
            if line_selected(line, cpu) {
                third_colon_field(line)
            } else {
                spec_subsystem_field(content.subrange(e + 1, content.len() as int), cpu)
            }
        } else {
            let line = strip_cr(content);
            if line_selected(line, cpu) {
                third_colon_field(line)
            } else {
                None
            }
        }
    }
}

/// The legacy memory control-group directory named by the mapping file.
pub open spec fn spec_memory_cgroup_root(content: Seq<u8>) -> Option<Seq<u8>> {
    match spec_subsystem_field(content, false) {
        Some(f) => Some(memory_mount_prefix() + f),
        None => None,
    }
}

/// The legacy cpu control-group directory named by the mapping file.
pub open spec fn spec_cpu_cgroup_root(content: Seq<u8>) -> Option<Seq<u8>> {
    match spec_subsystem_field(content, true) {
        Some(f) => Some(cpu_mount_prefix() + f),
        None => None,
    }
}

fn memory_needle() -> (v: Vec<u8>)
    ensures
        v@ == memory_word(),
{
    let mut v: Vec<u8> = Vec::new();
    v.push(109);
    v.push(101);
    v.push(109);
    v.push(111);
    v.push(114);
    v.push(121);
    proof {
        assert(v@ =~= memory_word());
    }
    v
}

fn cpu_comma_needle() -> (v: Vec<u8>)
    ensures
        v@ == cpu_comma_word(),
{
    let mut v: Vec<u8> = Vec::new();
    v.push(99);
    v.push(112);
    v.push(117);
    v.push(44);
    proof {
        assert(v@ =~= cpu_comma_word());
    }
    v
}

fn cpu_colon_needle() -> (v: Vec<u8>)
    ensures
        v@ == cpu_colon_word(),
{
    let mut v: Vec<u8> = Vec::new();
    v.push(99);
    v.push(112);
    v.push(117);
    v.push(58);
    proof {
        assert(v@ =~= cpu_colon_word());
    }
    v
}

fn mount_prefix(cpu: bool) -> (v: Vec<u8>)
    ensures
        v@ == if cpu {
            cpu_mount_prefix()
        } else {
            memory_mount_prefix()
        },
{
    let mut v: Vec<u8> = Vec::new();
    v.push(47);
    v.push(115);
    v.push(121);
    v.push(115);
    v.push(47);
    v.push(102);
    v.push(115);
    v.push(47);
    v.push(99);
    v.push(103);
    v.push(114);
    v.push(111);
    v.push(117);
    v.push(112);
    v.push(47);
    if cpu {
        v.push(99);
        v.push(112);
        v.push(117);
        proof {
            assert(v@ =~= cpu_mount_prefix());
        }
    } else {
        v.push(109);
        v.push(101);
        v.push(109);
        v.push(111);
        v.push(114);
        v.push(121);
        proof {
            assert(v@ =~= memory_mount_prefix());
        }
    }
    v
}

/// Walks the mapping file's lines and hands back the selected line's
/// third colon-separated field, as `spec_subsystem_field` describes.
#[verifier::rlimit(60)]
fn subsystem_field(content: &[u8], cpu: bool) -> (r: Option<Vec<u8>>)
    ensures
        r is Some <==> spec_subsystem_field(content@, cpu) is Some,
        (r matches Some(v) ==> Some(v@) == spec_subsystem_field(content@, cpu)),
{
    let n = content.len();
    let mem = memory_needle();
    let c1 = cpu_comma_needle();
    let c2 = cpu_colon_needle();
    let mut start: usize = 0;
    proof {
        assert(content@.subrange(0, n as int) =~= content@);
    }
    while start < n
        invariant
            0 <= start <= n == content@.len(),
            mem@ == memory_word(),
            c1@ == cpu_comma_word(),
            c2@ == cpu_colon_word(),
            spec_subsystem_field(content@, cpu) == spec_subsystem_field(
                content@.subrange(start as int, n as int),
                cpu,
            ),
        decreases n - start,
    {
        let ghost rem = content@.subrange(start as int, n as int);
        let e = find_in_range(content, start, n, 10);
        proof {
            assert(rem.len() > 0);
        }
        let mut le = e;
        if le > start && content[le - 1] == 13 {
            le = le - 1;
        }
        let ghost line0 = content@.subrange(start as int, e as int);
        let ghost line = strip_cr(line0);
        proof {
            if e < n {
                assert(rem.subrange(0, e - start) =~= line0);
            } else {
                assert(rem =~= line0);
            }
            if line0.len() > 0 && line0.last() == 13 {
                assert(line0.drop_last() =~= content@.subrange(start as int, e - 1));
            }
            assert(line == content@.subrange(start as int, le as int));
        }
        let sel = if cpu {
            range_contains(content, start, le, c1.as_slice()) || range_contains(
                content,
                start,
                le,
                c2.as_slice(),
            )
        } else {
            range_contains(content, start, le, mem.as_slice())
        };
        proof {
            assert(sel == line_selected(line, cpu));
            assert(spec_subsystem_field(rem, cpu) == if sel {
                third_colon_field(line)
            } else if e < n {
                spec_subsystem_field(rem.subrange(e - start + 1, rem.len() as int), cpu)
            } else {
                None::<Seq<u8>>
            });
        }
        if sel {
            let i1 = find_in_range(content, start, le, 58);
            proof {
                assert(i1 - start == find_from(line, 58, 0));
            }
            if i1 == le {
                return None;
            }
            let i2 = find_in_range(content, i1 + 1, le, 58);
            proof {
                lemma_find_from_shift(line, 58, i1 - start + 1, 0);
                assert(line.subrange(i1 - start + 1, line.len() as int) =~= content@.subrange(
                    i1 + 1,
                    le as int,
                ));
                assert(i2 - start == find_from(line, 58, i1 - start + 1));
            }
            if i2 == le {
                return None;
            }
            let i3 = find_in_range(content, i2 + 1, le, 58);
            proof {
                lemma_find_from_shift(line, 58, i2 - start + 1, 0);
                assert(line.subrange(i2 - start + 1, line.len() as int) =~= content@.subrange(
                    i2 + 1,
                    le as int,
                ));
                assert(i3 - start == find_from(line, 58, i2 - start + 1));
            }
            let v = copy_range(content, i2 + 1, i3);
            proof {
                assert(v@ =~= line.subrange(i2 - start + 1, i3 - start));
            }
            return Some(v);
        }
        if e == n {
            return None;
        }
        proof {
            assert(rem.subrange(e - start + 1, rem.len() as int) =~= content@.subrange(
                e + 1,
                n as int,
            ));
        }
        start = e + 1;
    }
    proof {
        assert(content@.subrange(start as int, n as int).len() == 0);
    }
    None
}

/// The directory holding the legacy memory limit and usage files for
/// this process, read off the given mapping-file content.
pub fn memory_cgroup_root(proc_cgroup: &[u8]) -> (r: Option<Vec<u8>>)
    ensures
        r is Some <==> spec_memory_cgroup_root(proc_cgroup@) is Some,
        (r matches Some(v) ==> Some(v@) == spec_memory_cgroup_root(proc_cgroup@)),
{
    match subsystem_field(proc_cgroup, false) {
        None => None,
        Some(f) => {
            let mut v = mount_prefix(false);
            let mut k: usize = 0;
            while k < f.len()
                invariant
                    0 <= k <= f@.len(),
                    v@ =~= memory_mount_prefix() + f@.subrange(0, k as int),
                decreases f@.len() - k,
            {
                v.push(f[k]);
                proof {
                    assert(v@ =~= memory_mount_prefix() + f@.subrange(0, k + 1));
                }
                k = k + 1;
            }
            proof {
                assert(f@.subrange(0, f@.len() as int) =~= f@);
            }
            Some(v)
        },
    }
}

/// The directory holding the legacy cpu quota and period files for this
/// process, read off the given mapping-file content.
pub fn cpu_cgroup_root(proc_cgroup: &[u8]) -> (r: Option<Vec<u8>>)
    ensures
        r is Some <==> spec_cpu_cgroup_root(proc_cgroup@) is Some,
        (r matches Some(v) ==> Some(v@) == spec_cpu_cgroup_root(proc_cgroup@)),
{
    match subsystem_field(proc_cgroup, true) {
        None => None,
        Some(f) => {
            let mut v = mount_prefix(true);
            let mut k: usize = 0;
            while k < f.len()
                invariant
                    0 <= k <= f@.len(),
                    v@ =~= cpu_mount_prefix() + f@.subrange(0, k as int),
                decreases f@.len() - k,
            {
                v.push(f[k]);
                proof {
                    assert(v@ =~= cpu_mount_prefix() + f@.subrange(0, k + 1));
                }
                k = k + 1;
            }
            proof {
                assert(f@.subrange(0, f@.len() as int) =~= f@);
            }
            Some(v)
        },
    }
}

} // verus!
