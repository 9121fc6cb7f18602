use vstd::prelude::*;
use vstd::string::StringExecFns;
use vstd::arithmetic::power2::{
    pow2, lemma_pow2_unfold, lemma_pow2_strictly_increases, lemma2_to64, lemma2_to64_rest,
};
use vstd::arithmetic::div_mod::{
    lemma_basic_div, lemma_div_nonincreasing, lemma_fundamental_div_mod,
};
use vstd::arithmetic::mul::lemma_mul_inequality;

use crate::config::ContainerConfig;
use crate::errors::Error;

verus! {

/// The CPU bandwidth period, in microseconds, of every container cgroup.
pub const CPU_PERIOD_US: u64 = 100000;

/// The exponent field of a 32-bit IEEE-754 bit pattern.
pub open spec fn f32_exp_field(bits: u32) -> u32 {
    (bits / 0x800000) % 256
}

/// The fraction field of a 32-bit IEEE-754 bit pattern.
pub open spec fn f32_frac_field(bits: u32) -> u32 {
    bits % 0x800000
}

/// Whether the bit pattern encodes an infinity or a NaN.
pub open spec fn f32_is_nan_or_inf(bits: u32) -> bool {
    f32_exp_field(bits) == 255
}

/// Whether the bit pattern encodes a zero of either sign.
pub open spec fn f32_is_zero(bits: u32) -> bool {
    f32_exp_field(bits) == 0 && f32_frac_field(bits) == 0
}

/// Whether the bit pattern encodes a number below zero. A negative zero is
/// not below zero.
pub open spec fn f32_is_negative(bits: u32) -> bool {
    bits / 0x80000000 == 1 && !f32_is_zero(bits)
}

/// The integer significand of the encoded number: the fraction field, with
/// the implicit leading bit when the exponent field is non-zero.
pub open spec fn f32_significand(bits: u32) -> nat {
    if f32_exp_field(bits) == 0 {
        f32_frac_field(bits) as nat
    } else {
        (f32_frac_field(bits) + 0x800000) as nat
    }
}

/// The binary scale of the encoded number, as a right shift: the magnitude
/// of the number is `significand / 2^shift` (a negative shift scales up).
pub open spec fn f32_shift(bits: u32) -> int {
    if f32_exp_field(bits) == 0 {
        149
    } else {
        150 - f32_exp_field(bits)
    }
}

/// `round(m * 100000)` for the non-negative number `m` the bits encode,
/// rounding halves up, computed exactly over the integers.
pub open spec fn cpu_quota_exact(bits: u32) -> int {
    let p = f32_significand(bits) * 100000;
    let sh = f32_shift(bits);
    if sh <= 0 {
        (p * pow2((-sh) as nat)) as int
    } else {
        (p + pow2((sh - 1) as nat)) as int / pow2(sh as nat) as int
    }
}

fn pow2_u64(k: u64) -> (r: u64)
    requires
        k < 64,
    ensures
        r == pow2(k as nat),
    decreases k,
{
    if k == 0 {
        proof {
            lemma2_to64();
        }
        1
    } else {
        let prev = pow2_u64(k - 1);
        proof {
            lemma_pow2_unfold(k as nat);
            if k < 63 {
                lemma_pow2_strictly_increases(k as nat, 63);
            }
            lemma2_to64_rest();
        }
        2 * prev
    }
}

/// The CPU quota, in microseconds per 100000-microsecond period, that a CPU
/// multiplier permits: exactly `round(m * 100000)`, derived from the
/// multiplier's IEEE-754 bit pattern with integer arithmetic alone.
///
/// A multiplier of zero yields quota `0`, which the kernel treats as no CPU
/// at all; it is passed through deliberately. Non-finite and negative
/// multipliers are rejected, as is a quota beyond the kernel's signed
/// 64-bit range.
pub fn cpu_quota_from_bits(bits: u32) -> (r: Result<u64, Error>)
    ensures
        match r {
            Ok(q) => !f32_is_nan_or_inf(bits) && !f32_is_negative(bits) && cpu_quota_exact(bits)
                <= i64::MAX as int && q == cpu_quota_exact(bits),
            Err(e) => e == Error::InvalidInput && (f32_is_nan_or_inf(bits) || f32_is_negative(bits)
                || cpu_quota_exact(bits) > i64::MAX as int),
        },
{
    let exp: u32 = (bits / 0x800000) % 256;
    let frac: u32 = bits % 0x800000;
    if exp == 255 {
        return Err(Error::InvalidInput);
    }
    if bits / 0x80000000 == 1 && !(exp == 0 && frac == 0) {
        return Err(Error::InvalidInput);
    }
    let sig: u64 = if exp == 0 {
        frac as u64
    } else {
        (frac + 0x800000) as u64
    };
    proof {
        assert(sig == f32_significand(bits));
        assert(sig <= 0xffffff);
        lemma_mul_inequality(sig as int, 0xffffff, 100000);
    }
    let p: u64 = sig * 100000;
    proof {
        assert(p <= 0xffffff * 100000);
    }
    if exp >= 150 {
        let pw: u32 = exp - 150;
        proof {
            assert(f32_shift(bits) == -(pw as int));
        }
        if pw == 0 {
            proof {
                lemma2_to64();
                assert(cpu_quota_exact(bits) == p * 1);
            }
            return Ok(p);
        }
        if pw >= 24 {
            proof {
                assert(sig >= 0x800000);
                lemma_mul_inequality(0x800000, sig as int, 100000);
                assert(p >= 0x800000 * 100000);
                lemma2_to64();
                if pw > 24 {
                    lemma_pow2_strictly_increases(24, pw as nat);
                }
                assert(pow2(pw as nat) >= 0x1000000);
                lemma_mul_inequality((0x800000 * 100000) as int, p as int, pow2(pw as nat) as int);
                lemma_mul_inequality(0x1000000, pow2(pw as nat) as int, (0x800000 * 100000) as int);
                assert((0x800000 * 100000) * pow2(pw as nat) >= (0x800000 * 100000) * 0x1000000);
                assert(cpu_quota_exact(bits) > i64::MAX as int);
            }
            return Err(Error::InvalidInput);
        }
        let m: u64 = pow2_u64(pw as u64);
        proof {
            vstd::arithmetic::power2::lemma_pow2_pos(pw as nat);
        }
        let limit: u64 = 0x7fffffffffffffff / m;
        proof {
            lemma_fundamental_div_mod(0x7fffffffffffffffint, m as int);
        }
        if p > limit {
            proof {
                assert(p * m > i64::MAX as int) by (nonlinear_arith)
                    requires
                        p >= limit + 1,
                        m >= 1,
                        0x7fffffffffffffff == m * limit + 0x7fffffffffffffffint % (m as int),
                        0 <= 0x7fffffffffffffffint % (m as int) < m,
                ;
            }
            return Err(Error::InvalidInput);
        }
        proof {
            assert(p * m <= i64::MAX as int) by (nonlinear_arith)
                requires
                    p <= limit,
                    m >= 1,
                    0x7fffffffffffffff == m * limit + 0x7fffffffffffffffint % (m as int),
                    0 <= 0x7fffffffffffffffint % (m as int) < m,
            ;
        }
        Ok(p * m)
    } else {
        let sh: u32 = if exp == 0 {
            149
        } else {
            150 - exp
        };
        proof {
            assert(f32_shift(bits) == sh as int);
        }
        if sh >= 42 {
            proof {
                lemma2_to64_rest();
                assert(pow2(41) == 0x20000000000);
                if sh - 1 > 41 {
                    lemma_pow2_strictly_increases(41, (sh - 1) as nat);
                }
                assert(pow2((sh - 1) as nat) >= 0x20000000000);
                lemma_pow2_unfold(sh as nat);
                assert(p < pow2((sh - 1) as nat));
                lemma_basic_div(
                    (p + pow2((sh - 1) as nat)) as int,
                    pow2(sh as nat) as int,
                );
                assert(cpu_quota_exact(bits) == 0);
            }
            return Ok(0);
        }
        let half: u64 = pow2_u64((sh - 1) as u64);
        proof {
            vstd::arithmetic::power2::lemma_pow2_pos((sh - 1) as nat);
            lemma2_to64_rest();
            if sh - 1 < 41 {
                lemma_pow2_strictly_increases((sh - 1) as nat, 41);
            }
            assert(half <= 0x20000000000);
            lemma_pow2_unfold(sh as nat);
        }
        let den: u64 = 2 * half;
        let q: u64 = (p + half) / den;
        proof {
            assert(den == pow2(sh as nat));
            lemma_div_nonincreasing((p + half) as int, den as int);
            assert(q == cpu_quota_exact(bits));
        }
        Ok(q)
    }
}

/// The derived CPU controller settings of a container cgroup.
#[derive(Clone, Copy, Debug, PartialEq, Eq, Structural)]
pub struct CpuLimit {
    /// Bandwidth period in microseconds; always 100000.
    pub period_us: u64,
    /// Bandwidth quota in microseconds per period.
    pub quota_us: u64,
}

/// The derived memory controller settings of a container cgroup.
#[derive(Clone, Copy, Debug, PartialEq, Eq, Structural)]
pub struct MemLimit {
    /// Hard limit in bytes.
    pub bytes: u64,
    /// Swappiness; always 0, disallowing swap.
    pub swappiness: u64,
}

/// The name of a container's cgroup: `picotin-<id>`.
pub open spec fn cgroup_name_text(id: Seq<char>) -> Seq<char> {
    "picotin-"@ + id
}

/// Builds the name of a container's cgroup.
pub fn cgroup_name(id: &str) -> (r: String)
    ensures
        r@ == cgroup_name_text(id@),
{
    let mut r = String::from_str("picotin-");
    r.append(id);
    r
}

/// The memory hard limit, in bytes, for a configured limit in mebibytes:
/// exactly `mib * 2^20`. A limit of 0 MiB passes through as 0 bytes, which
/// makes the container effectively unschedulable; it is passed through
/// deliberately. A limit beyond the kernel's signed 64-bit byte range is
/// rejected.
pub fn mem_limit_bytes(mib: u64) -> (r: Result<u64, Error>)
    ensures
        match r {
            Ok(b) => mib * 0x100000 <= i64::MAX as int && b == mib * 0x100000,
            Err(e) => e == Error::InvalidInput && mib * 0x100000 > i64::MAX as int,
        },
{
    if mib > 0x7fffffffffffffffu64 / 0x100000 {
        Err(Error::InvalidInput)
    } else {
        Ok(mib * 0x100000)
    }
}

/// Whether a configuration's numeric caps can be translated into kernel
/// limits: the CPU multiplier, if any, is finite, non-negative and yields a
/// quota within the kernel's signed 64-bit range, and the memory limit, if
/// any, fits that range in bytes.
pub open spec fn cgroup_config_ok(config: ContainerConfig) -> bool {
    &&& match config.cpu_mul_bits {
        Some(bits) => !f32_is_nan_or_inf(bits) && !f32_is_negative(bits) && cpu_quota_exact(bits)
            <= i64::MAX as int,
        None => true,
    }
    &&& match config.mem_mib {
        Some(mib) => mib * 0x100000 <= i64::MAX as int,
        None => true,
    }
}

/// Whether a cgroup specification is exactly the one a configuration calls
/// for on container `id`: the name `picotin-<id>`, a CPU controller with
/// period 100000 and quota `round(m * 100000)` exactly when a multiplier is
/// configured, and a memory controller with limit `mib * 2^20` bytes and
/// swappiness 0 exactly when a memory limit is configured.
pub open spec fn cgroup_spec_matches(s: CgroupSpec, id: Seq<char>, config: ContainerConfig) -> bool {
    &&& s.name@ == cgroup_name_text(id)
    &&& match config.cpu_mul_bits {
        None => s.cpu is None,
        Some(bits) => s.cpu == Some(
            CpuLimit { period_us: 100000, quota_us: cpu_quota_exact(bits) as u64 },
        ),
    }
    &&& match config.mem_mib {
        None => s.mem is None,
        Some(mib) => s.mem == Some(
            MemLimit { bytes: (mib * 0x100000) as u64, swappiness: 0 },
        ),
    }
}

/// Everything the kernel is told about one container's cgroup.
pub struct CgroupSpec {
    /// The cgroup's name, `picotin-<id>`.
    pub name: String,
    /// CPU controller settings, when a CPU multiplier is configured.
    pub cpu: Option<CpuLimit>,
    /// Memory controller settings, when a memory limit is configured.
    pub mem: Option<MemLimit>,
}

impl CgroupSpec {
    /// Derives the kernel-enforced limits of container `id` from its
    /// configuration: a cgroup named `picotin-<id>`, with CPU period 100000
    /// microseconds and quota `round(m * 100000)` when a CPU multiplier `m`
    /// is configured, and a memory hard limit of `mib * 2^20` bytes with
    /// swap disallowed when a memory limit is configured.
    pub fn build(id: &str, config: &ContainerConfig) -> (r: Result<CgroupSpec, Error>)
        ensures
            match r {
                Ok(s) => cgroup_config_ok(*config) && cgroup_spec_matches(s, id@, *config),
                Err(e) => e == Error::InvalidInput && !cgroup_config_ok(*config),
            },
    {
        let cpu = match config.cpu_mul_bits {
            None => None,
            Some(bits) => {
                let quota = match cpu_quota_from_bits(bits) {
                    Ok(q) => q,
                    Err(e) => {
                        return Err(e);
                    },
                };
                Some(CpuLimit { period_us: CPU_PERIOD_US, quota_us: quota })
            },
        };
        let mem = match config.mem_mib {
            None => None,
            Some(mib) => {
                let bytes = match mem_limit_bytes(mib) {
                    Ok(b) => b,
                    Err(e) => {
                        return Err(e);
                    },
                };
                Some(MemLimit { bytes, swappiness: 0 })
            },
        };
        Ok(CgroupSpec { name: cgroup_name(id), cpu, mem })
    }
}

} // verus!
