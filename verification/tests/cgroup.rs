use picotin::{
    cgroup_name, cpu_quota_from_bits, mem_limit_bytes, CgroupSpec, ContainerConfig, CpuLimit,
    Error, MemLimit,
};

fn quota(m: f32) -> Result<u64, Error> {
    cpu_quota_from_bits(m.to_bits())
}

#[test]
fn cpu_quota_matches_round_of_multiplier() {
    assert_eq!(quota(0.5), Ok(50000));
    assert_eq!(quota(1.0), Ok(100000));
    assert_eq!(quota(2.0), Ok(200000));
    assert_eq!(quota(1.5), Ok(150000));
    assert_eq!(quota(0.25), Ok(25000));
    // 0.1 as a 32-bit float is 13421773 * 2^-27 = 0.100000001490116...;
    // times 100000 that rounds to 10000.
    assert_eq!(quota(0.1), Ok(10000));
    assert_eq!(quota(1e9), Ok(100_000_000_000_000));
}

#[test]
fn cpu_multiplier_zero_yields_quota_zero() {
    assert_eq!(quota(0.0), Ok(0));
    assert_eq!(quota(-0.0), Ok(0));
    // The smallest positive 32-bit float, 2^-149, rounds to no CPU at all.
    assert_eq!(cpu_quota_from_bits(1), Ok(0));
    // Below half a microsecond rounds down to no CPU; a microsecond's
    // worth of multiplier yields quota 1.
    assert_eq!(quota(0.0000049), Ok(0));
    assert_eq!(quota(0.00001), Ok(1));
}

#[test]
fn cpu_quota_rejects_bad_multipliers() {
    assert_eq!(quota(-1.0), Err(Error::InvalidInput));
    assert_eq!(quota(-0.5), Err(Error::InvalidInput));
    assert_eq!(quota(f32::NAN), Err(Error::InvalidInput));
    assert_eq!(quota(f32::INFINITY), Err(Error::InvalidInput));
    assert_eq!(quota(f32::NEG_INFINITY), Err(Error::InvalidInput));
    // A quota beyond the kernel's signed 64-bit range is rejected.
    assert_eq!(quota(3.0e38), Err(Error::InvalidInput));
}

#[test]
fn memory_limit_is_mebibytes_times_two_to_twenty() {
    assert_eq!(mem_limit_bytes(64), Ok(67108864));
    assert_eq!(mem_limit_bytes(1), Ok(1048576));
    assert_eq!(mem_limit_bytes(0), Ok(0));
    assert_eq!(mem_limit_bytes(8796093022207), Ok(9223372036853727232));
    assert_eq!(mem_limit_bytes(8796093022208), Err(Error::InvalidInput));
    assert_eq!(mem_limit_bytes(u64::MAX), Err(Error::InvalidInput));
}

#[test]
fn cgroup_spec_for_half_core_and_64_mib() {
    let config = ContainerConfig {
        root: None,
        command: Some("/bin/true".to_string()),
        cpu_mul_bits: Some(0.5f32.to_bits()),
        mem_mib: Some(64),
        unshare_net: true,
    };
    let spec = CgroupSpec::build("ab12cd34", &config).unwrap();
    assert_eq!(spec.name, "picotin-ab12cd34");
    assert_eq!(spec.cpu, Some(CpuLimit { period_us: 100000, quota_us: 50000 }));
    assert_eq!(spec.mem, Some(MemLimit { bytes: 67108864, swappiness: 0 }));
}

#[test]
fn cgroup_spec_without_caps_has_no_controllers() {
    let config = ContainerConfig {
        root: None,
        command: Some("/bin/false".to_string()),
        cpu_mul_bits: None,
        mem_mib: None,
        unshare_net: true,
    };
    let spec = CgroupSpec::build("00000000", &config).unwrap();
    assert_eq!(spec.name, "picotin-00000000");
    assert_eq!(spec.cpu, None);
    assert_eq!(spec.mem, None);
}

#[test]
fn cgroup_spec_rejects_bad_numeric_config() {
    let config = ContainerConfig {
        root: None,
        command: None,
        cpu_mul_bits: Some(f32::NAN.to_bits()),
        mem_mib: Some(64),
        unshare_net: true,
    };
    assert!(matches!(CgroupSpec::build("00000000", &config), Err(Error::InvalidInput)));
}

#[test]
fn cgroup_names_are_prefixed() {
    assert_eq!(cgroup_name("ab12cd34"), "picotin-ab12cd34");
}
