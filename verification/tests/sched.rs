use linux_sched::errno::result_unit;
use linux_sched::errno::Errno;
use linux_sched::errno::EINVAL;
use linux_sched::sched::aligned_stack_top;
use linux_sched::sched::clone_result;
use linux_sched::sched::combined_bits;
use linux_sched::sched::CloneFlags;
use linux_sched::sched::CpuSet;
use linux_sched::sched::CLONE_FILES;
use linux_sched::sched::CLONE_FLAGS_MASK;
use linux_sched::sched::CLONE_FS;
use linux_sched::sched::CLONE_IO;
use linux_sched::sched::CLONE_NEWNET;
use linux_sched::sched::CLONE_VM;
use linux_sched::sched::CPU_SET_BITS;
use linux_sched::unistd::Pid;
use linux_sched::Error;

fn einval() -> Error {
    Error::Sys(Errno { code: EINVAL })
}

#[test]
fn cpuset_starts_empty() {
    let set = CpuSet::new();
    for i in [0usize, 1, 63, 64, 512, CPU_SET_BITS - 1] {
        assert_eq!(set.is_set(i), Ok(false));
    }
}

#[test]
fn cpuset_set_then_is_set() {
    let mut set = CpuSet::new();
    assert_eq!(set.set(3), Ok(()));
    assert_eq!(set.is_set(3), Ok(true));
    assert_eq!(set.unset(3), Ok(()));
    assert_eq!(set.is_set(3), Ok(false));
}

#[test]
fn cpuset_no_cross_index_interference() {
    let mut set = CpuSet::new();
    assert_eq!(set.set(5), Ok(()));
    assert_eq!(set.set(64), Ok(()));
    assert_eq!(set.set(CPU_SET_BITS - 1), Ok(()));
    assert_eq!(set.is_set(4), Ok(false));
    assert_eq!(set.is_set(5), Ok(true));
    assert_eq!(set.is_set(6), Ok(false));
    assert_eq!(set.is_set(63), Ok(false));
    assert_eq!(set.is_set(64), Ok(true));
    assert_eq!(set.is_set(65), Ok(false));
    assert_eq!(set.is_set(CPU_SET_BITS - 2), Ok(false));
    assert_eq!(set.is_set(CPU_SET_BITS - 1), Ok(true));
    assert_eq!(set.unset(64), Ok(()));
    assert_eq!(set.is_set(5), Ok(true));
    assert_eq!(set.is_set(64), Ok(false));
    assert_eq!(set.is_set(CPU_SET_BITS - 1), Ok(true));
}

#[test]
fn cpuset_out_of_range_fails_with_einval() {
    let mut set = CpuSet::new();
    assert_eq!(set.is_set(CPU_SET_BITS), Err(einval()));
    assert_eq!(set.set(CPU_SET_BITS), Err(einval()));
    assert_eq!(set.unset(CPU_SET_BITS), Err(einval()));
    assert_eq!(set.is_set(usize::MAX), Err(einval()));
    assert_eq!(set.set(usize::MAX), Err(einval()));
    assert_eq!(set.unset(usize::MAX), Err(einval()));
    // the failed accesses left the set untouched
    for i in [0usize, 100, CPU_SET_BITS - 1] {
        assert_eq!(set.is_set(i), Ok(false));
    }
}

#[test]
fn clone_flags_round_trip() {
    let raw = CLONE_VM | CLONE_FS | CLONE_NEWNET | CLONE_IO;
    let flags = CloneFlags::from_bits(raw).expect("recognized bits");
    assert_eq!(flags.bits(), raw);
    let one = CloneFlags::from_bits(CLONE_VM).expect("recognized bits");
    assert_eq!(one.bits(), CLONE_VM);
    let all = CloneFlags::from_bits(CLONE_FLAGS_MASK).expect("recognized bits");
    assert_eq!(all.bits(), CLONE_FLAGS_MASK);
    assert_eq!(CloneFlags::empty().bits(), 0);
}

#[test]
fn clone_flags_reject_unknown_bits() {
    assert_eq!(CloneFlags::from_bits(0x1), None);
    // the signal byte is not a flag
    assert_eq!(CloneFlags::from_bits(0xff), None);
    // a recognized bit does not excuse an unrecognized one
    assert_eq!(CloneFlags::from_bits(CLONE_VM | 0x1000), None);
}

#[test]
fn clone_flags_compose() {
    let vm = CloneFlags::from_bits(CLONE_VM).unwrap();
    let fs = CloneFlags::from_bits(CLONE_FS).unwrap();
    let both = vm.union(fs);
    assert_eq!(both.bits(), CLONE_VM | CLONE_FS);
    assert!(both.contains(vm));
    assert!(both.contains(fs));
    assert!(!vm.contains(fs));
    let mut grown = vm;
    grown.insert(CloneFlags::from_bits(CLONE_FILES).unwrap());
    assert_eq!(grown.bits(), CLONE_VM | CLONE_FILES);
}

#[test]
fn aligned_stack_top_values() {
    assert_eq!(aligned_stack_top(0, 4096), 4096);
    assert_eq!(aligned_stack_top(8, 4096), 4104);
    assert_eq!(aligned_stack_top(3, 10), 8);
    assert_eq!(aligned_stack_top(1, 6), 0);
    assert_eq!(aligned_stack_top(16, 15), 24);
}

#[test]
fn combined_bits_values() {
    let vm = CloneFlags::from_bits(CLONE_VM).unwrap();
    assert_eq!(combined_bits(vm, Some(17)), CLONE_VM | 17);
    assert_eq!(combined_bits(vm, None), CLONE_VM);
    assert_eq!(combined_bits(CloneFlags::empty(), Some(9)), 9);
}

#[test]
fn result_unit_propagates_verbatim() {
    assert_eq!(result_unit(0, 0), Ok(()));
    // a stale errno value is ignored on success
    assert_eq!(result_unit(0, 13), Ok(()));
    assert_eq!(result_unit(-1, 13), Err(Error::Sys(Errno { code: 13 })));
    assert_eq!(result_unit(-1, 1), Err(Error::Sys(Errno { code: 1 })));
}

#[test]
fn clone_result_propagates_verbatim() {
    assert_eq!(clone_result(1234, 0), Ok(Pid { raw: 1234 }));
    assert_eq!(clone_result(-1, 11), Err(Error::Sys(Errno { code: 11 })));
}

#[test]
fn pid_and_errno_carry_their_raw_value() {
    let pid = Pid::from_raw(42);
    assert_eq!(pid.as_raw(), 42);
    let err = Errno::from_raw(13);
    assert_eq!(err.as_raw(), 13);
}
