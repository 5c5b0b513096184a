//! Engine configuration persisted in flash / tuned at runtime.

mod config_error;
mod ignition_mode;
mod injection_mode;

pub use config_error::ConfigError;
pub use ignition_mode::IgnitionMode;
pub use injection_mode::InjectionMode;

use vstd::prelude::*;

verus! {

/// Number of cylinders supported by the core engine model (microRusEFI limit).
pub const MAX_CYLINDERS: usize = 4;

/// Top-level tunable engine configuration.
#[derive(Clone, Debug, PartialEq)]
pub struct EngineConfig {
    pub cylinders: u8,
    /// Cylinder indices (0-based) in firing order; length must equal `cylinders`.
    pub firing_sequence: &'static [u8],
    pub injection_mode: InjectionMode,
    pub ignition_mode: IgnitionMode,
    pub cranking_injection_mode: InjectionMode,
    /// Displacement in cubic centimeters (used for load modeling).
    pub displacement_cc: u16,
    /// Target idle RPM when closed-loop idle is active.
    pub target_idle_rpm: u16,
}

/// Walk the firing sequence from position `i`: the first entry that is not a
/// cylinder index, or that repeats an earlier entry, decides the error.
pub open spec fn firing_scan(seq: Seq<u8>, cylinders: u8, i: int) -> Result<(), ConfigError>
    decreases seq.len() - i,
{
    if i < 0 || i >= seq.len() {
        Ok(())
    } else if seq[i] >= cylinders {
        Err(ConfigError::InvalidFiringIndex)
    } else if seq.take(i).contains(seq[i]) {
        Err(ConfigError::DuplicateFiringIndex)
    } else {
        firing_scan(seq, cylinders, i + 1)
    }
}

/// The verdict on a cylinder count and firing sequence: the count must be
/// in `1..=MAX_CYLINDERS`, the sequence must have one entry per cylinder,
/// and the entries are then checked in order.
pub open spec fn config_check(cylinders: u8, seq: Seq<u8>) -> Result<(), ConfigError> {
    if cylinders == 0 || cylinders > MAX_CYLINDERS {
        Err(ConfigError::InvalidCylinderCount)
    } else if seq.len() != cylinders {
        Err(ConfigError::FiringSequenceLength)
    } else {
        firing_scan(seq, cylinders, 0)
    }
}

/// `seq` names every cylinder `0..cylinders` exactly once.
pub open spec fn is_firing_permutation(seq: Seq<u8>, cylinders: u8) -> bool {
    &&& seq.len() == cylinders
    &&& forall|k: int| 0 <= k < seq.len() ==> #[trigger] seq[k] < cylinders
    &&& forall|k: int, j: int| 0 <= k < j < seq.len() ==> seq[k] != seq[j]
}

/// The first `i` firing-sequence entries are cylinder indices, none repeated.
pub open spec fn prefix_ok(seq: Seq<u8>, cylinders: u8, i: int) -> bool {
    &&& forall|k: int| 0 <= k < i ==> #[trigger] seq[k] < cylinders
    &&& forall|k: int, j: int| 0 <= k < j < i ==> seq[k] != seq[j]
}

/// The verdict on a configuration, stated directly: a bad count is
/// reported first, then a bad length; otherwise the first entry that is
/// out of range or repeats an earlier one decides between an invalid and a
/// duplicate index, and a sequence naming each cylinder once is accepted.
pub open spec fn verdict_matches(cylinders: u8, seq: Seq<u8>, r: Result<(), ConfigError>) -> bool {
    &&& (r == Err::<(), ConfigError>(ConfigError::InvalidCylinderCount)) <==> (cylinders == 0
        || cylinders > MAX_CYLINDERS)
    &&& (r == Err::<(), ConfigError>(ConfigError::FiringSequenceLength)) <==> (1 <= cylinders
        <= MAX_CYLINDERS && seq.len() != cylinders)
    &&& (r is Ok) <==> (1 <= cylinders <= MAX_CYLINDERS && is_firing_permutation(seq, cylinders))
    &&& r == Err::<(), ConfigError>(ConfigError::InvalidFiringIndex) ==> {
        &&& 1 <= cylinders <= MAX_CYLINDERS
        &&& seq.len() == cylinders
        &&& exists|i: int| 0 <= i < seq.len() && #[trigger] seq[i] >= cylinders && prefix_ok(seq, cylinders, i)
    }
    &&& r == Err::<(), ConfigError>(ConfigError::DuplicateFiringIndex) ==> {
        &&& 1 <= cylinders <= MAX_CYLINDERS
        &&& seq.len() == cylinders
        &&& exists|i: int, j: int|
            0 <= j < i < seq.len() && #[trigger] seq[i] < cylinders && #[trigger] seq[j] == seq[i]
                && prefix_ok(seq, cylinders, i)
    }
    &&& r != Err::<(), ConfigError>(ConfigError::IncompleteFiringSequence)
}

/// Scanning from a clean prefix, an invalid or duplicate verdict points at
/// the first offending entry.
proof fn lemma_scan_errors(seq: Seq<u8>, cylinders: u8, i: int)
    requires
        0 <= i <= seq.len(),
        prefix_ok(seq, cylinders, i),
    ensures
        firing_scan(seq, cylinders, i) == Err::<(), ConfigError>(ConfigError::InvalidFiringIndex)
            ==> exists|k: int| 0 <= k < seq.len() && #[trigger] seq[k] >= cylinders && prefix_ok(seq, cylinders, k),
        firing_scan(seq, cylinders, i) == Err::<(), ConfigError>(ConfigError::DuplicateFiringIndex)
            ==> exists|k: int, j: int|
            0 <= j < k < seq.len() && #[trigger] seq[k] < cylinders && #[trigger] seq[j] == seq[k]
                && prefix_ok(seq, cylinders, k),
        firing_scan(seq, cylinders, i) is Ok || firing_scan(seq, cylinders, i) == Err::<(), ConfigError>(ConfigError::InvalidFiringIndex)
            || firing_scan(seq, cylinders, i) == Err::<(), ConfigError>(ConfigError::DuplicateFiringIndex),
    decreases seq.len() - i,
{
    if i < seq.len() {
        if seq[i] >= cylinders {
        } else if seq.take(i).contains(seq[i]) {
            let j = choose|j: int| 0 <= j < i && #[trigger] seq.take(i)[j] == seq[i];
            assert(seq[j] == seq.take(i)[j]);
        } else {
            assert forall|k: int, j: int| 0 <= k < j < i + 1 implies seq[k] != seq[j] by {
                if j == i {
                    assert(seq.take(i)[k] == seq[k]);
                }
            }
            lemma_scan_errors(seq, cylinders, i + 1);
        }
    }
}

/// The configuration verdict, stated directly over the cylinder count and
/// the firing sequence.
pub proof fn lemma_config_verdict(cylinders: u8, seq: Seq<u8>)
    ensures
        verdict_matches(cylinders, seq, config_check(cylinders, seq)),
{
    lemma_firing_scan_ok(seq, cylinders, 0);
    lemma_scan_errors(seq, cylinders, 0);
}

impl EngineConfig {
    /// What [`EngineConfig::validate`] answers for this configuration.
    pub open spec fn spec_validate(&self) -> Result<(), ConfigError> {
        config_check(self.cylinders, self.firing_sequence@)
    }

    /// Number of cylinders configured.
    pub fn cylinder_count(&self) -> (r: usize)
        ensures
            r == self.cylinders,
    {
        self.cylinders as usize
    }

    /// Sanity-check the configuration at boot.
    pub fn validate(&self) -> (r: Result<(), ConfigError>)
        ensures
            r == self.spec_validate(),
            r is Ok <==> (1 <= self.cylinders <= MAX_CYLINDERS && is_firing_permutation(
                self.firing_sequence@,
                self.cylinders,
            )),
            r != Err::<(), ConfigError>(ConfigError::IncompleteFiringSequence),
            verdict_matches(self.cylinders, self.firing_sequence@, r),
    {
        proof {
            lemma_firing_scan_ok(self.firing_sequence@, self.cylinders, 0);
            lemma_config_verdict(self.cylinders, self.firing_sequence@);
        }
        if self.cylinders == 0 || self.cylinders as usize > MAX_CYLINDERS {
            return Err(ConfigError::InvalidCylinderCount);
        }
        if self.firing_sequence.len() != self.cylinders as usize {
            return Err(ConfigError::FiringSequenceLength);
        }
        let ghost seq = self.firing_sequence@;
        let cylinders = self.cylinders;
        let mut seen: u8 = 0;
        let mut i: usize = 0;
        while i < self.firing_sequence.len()
            invariant
                seq == self.firing_sequence@,
                cylinders == self.cylinders,
                1 <= cylinders <= MAX_CYLINDERS,
                seq.len() == cylinders,
                0 <= i <= seq.len(),
                config_check(cylinders, seq) == firing_scan(seq, cylinders, i as int),
                forall|k: int| 0 <= k < i ==> #[trigger] seq[k] < cylinders,
                forall|k: int, j: int| 0 <= k < j < i ==> seq[k] != seq[j],
                seen == mask_of(seq, i as int),
            decreases seq.len() - i,
        {
            let idx = self.firing_sequence[i];
            if idx >= cylinders {
                return Err(ConfigError::InvalidFiringIndex);
            }
            let bit = 1u8 << idx;
            proof {
                lemma_mask_membership(seq, i as int, idx);
            }
            if seen & bit != 0 {
                proof {
                    assert(seq.take(i as int).contains(idx));
                }
                return Err(ConfigError::DuplicateFiringIndex);
            }
            proof {
                assert(!seq.take(i as int).contains(seq[i as int]));
                assert forall|k: int, j: int| 0 <= k < j < i + 1 implies seq[k] != seq[j] by {
                    if j == i {
                        assert(seq.take(i as int)[k] == seq[k]);
                    }
                }
                assert(seq.take(i + 1).drop_last() =~= seq.take(i as int));
            }
            seen = seen | bit;
            i += 1;
        }
        proof {
            lemma_low_mask(cylinders);
            lemma_full_mask(seq, cylinders);
        }
        let expected = (1u8 << cylinders) - 1;
        if seen != expected {
            return Err(ConfigError::IncompleteFiringSequence);
        }
        Ok(())
    }
}

/// Bit mask of the first `n` firing-sequence entries.
pub open spec fn mask_of(seq: Seq<u8>, n: int) -> u8
    decreases n,
{
    if n <= 0 {
        0
    } else {
        mask_of(seq, n - 1) | (1u8 << seq[n - 1])
    }
}

/// Setting bit `a` in a mask sets exactly that bit.
proof fn lemma_set_bit(m: u8, a: u8, x: u8)
    by (bit_vector)
    requires
        a < 8,
        x < 8,
    ensures
        ((m | (1u8 << a)) & (1u8 << x) != 0) == ((m & (1u8 << x) != 0) || a == x),
        (0u8 & (1u8 << x)) == 0,
{
}

/// Bit `x` of the prefix mask is set exactly when `x` occurs in the prefix.
proof fn lemma_mask_membership(seq: Seq<u8>, n: int, x: u8)
    requires
        0 <= n <= seq.len(),
        x < 8,
        forall|k: int| 0 <= k < n ==> #[trigger] seq[k] < 8,
    ensures
        (mask_of(seq, n) & (1u8 << x) != 0) == seq.take(n).contains(x),
    decreases n,
{
    if n == 0 {
        lemma_set_bit(0, 0, x);
        assert(seq.take(0) =~= Seq::<u8>::empty());
    } else {
        lemma_mask_membership(seq, n - 1, x);
        lemma_set_bit(mask_of(seq, n - 1), seq[n - 1], x);
        assert(seq.take(n) =~= seq.take(n - 1).push(seq[n - 1]));
        if seq.take(n - 1).contains(x) {
            let w = choose|w: int| 0 <= w < n - 1 && #[trigger] seq.take(n - 1)[w] == x;
            assert(seq.take(n)[w] == x);
        }
        if seq[n - 1] == x {
            assert(seq.take(n)[n - 1] == x);
        }
        if seq.take(n).contains(x) && seq[n - 1] != x {
            let w = choose|w: int| 0 <= w < n && #[trigger] seq.take(n)[w] == x;
            assert(seq.take(n - 1)[w] == x);
        }
    }
}

/// `(1 << c) - 1` for the supported cylinder counts.
proof fn lemma_low_mask(c: u8)
    by (bit_vector)
    requires
        1 <= c <= 4,
    ensures
        (1u8 << c) >= 1,
        c == 1 ==> (1u8 << c) - 1 == 1,
        c == 2 ==> (1u8 << c) - 1 == 3,
        c == 3 ==> (1u8 << c) - 1 == 7,
        c == 4 ==> (1u8 << c) - 1 == 15,
{
}

proof fn lemma_full_mask_2(a: u8, b: u8)
    by (bit_vector)
    requires
        a < 2,
        b < 2,
        a != b,
    ensures
        ((0u8 | (1u8 << a)) | (1u8 << b)) == 3,
{
}

proof fn lemma_full_mask_3(a: u8, b: u8, d: u8)
    by (bit_vector)
    requires
        a < 3,
        b < 3,
        d < 3,
        a != b,
        a != d,
        b != d,
    ensures
        (((0u8 | (1u8 << a)) | (1u8 << b)) | (1u8 << d)) == 7,
{
}

proof fn lemma_full_mask_4(a: u8, b: u8, d: u8, e: u8)
    by (bit_vector)
    requires
        a < 4,
        b < 4,
        d < 4,
        e < 4,
        a != b,
        a != d,
        a != e,
        b != d,
        b != e,
        d != e,
    ensures
        ((((0u8 | (1u8 << a)) | (1u8 << b)) | (1u8 << d)) | (1u8 << e)) == 15,
{
}

/// A firing sequence that names each of `c` cylinders once sets all of the
/// low `c` bits.
proof fn lemma_full_mask(seq: Seq<u8>, c: u8)
    requires
        1 <= c <= MAX_CYLINDERS,
        is_firing_permutation(seq, c),
    ensures
        mask_of(seq, c as int) == (1u8 << c) - 1,
{
    lemma_low_mask(c);
    assert(seq[0] < c);
    if c >= 2 {
        assert(seq[1] < c);
    }
    if c >= 3 {
        assert(seq[2] < c);
    }
    if c >= 4 {
        assert(seq[3] < c);
    }
    reveal_with_fuel(mask_of, 5);
    if c == 1 {
        let a = seq[0];
        assert((0u8 | (1u8 << a)) == 1) by (bit_vector)
            requires
                a < 1,
        ;
    } else if c == 2 {
        lemma_full_mask_2(seq[0], seq[1]);
    } else if c == 3 {
        lemma_full_mask_3(seq[0], seq[1], seq[2]);
    } else {
        lemma_full_mask_4(seq[0], seq[1], seq[2], seq[3]);
    }
}

/// The entry-by-entry scan from position `i` succeeds exactly when every
/// later entry is a cylinder index that does not repeat an earlier entry.
proof fn lemma_firing_scan_ok(seq: Seq<u8>, cylinders: u8, i: int)
    requires
        0 <= i <= seq.len(),
    ensures
        firing_scan(seq, cylinders, i) is Ok <==> (forall|k: int|
            i <= k < seq.len() ==> #[trigger] seq[k] < cylinders && !seq.take(k).contains(seq[k])),
        i == 0 ==> (firing_scan(seq, cylinders, i) is Ok <==> (forall|k: int|
            0 <= k < seq.len() ==> #[trigger] seq[k] < cylinders) && (forall|k: int, j: int|
            0 <= k < j < seq.len() ==> seq[k] != seq[j])),
    decreases seq.len() - i,
{
    if i < seq.len() {
        lemma_firing_scan_ok(seq, cylinders, i + 1);
    }
    if i == 0 {
        if firing_scan(seq, cylinders, 0) is Ok {
            assert forall|k: int, j: int| 0 <= k < j < seq.len() implies seq[k] != seq[j] by {
                assert(seq[j] < cylinders && !seq.take(j).contains(seq[j]));
                assert(seq.take(j)[k] == seq[k]);
            }
        }
        if (forall|k: int| 0 <= k < seq.len() ==> #[trigger] seq[k] < cylinders) && (forall|
            k: int,
            j: int,
        |
            0 <= k < j < seq.len() ==> seq[k] != seq[j]) {
            assert forall|k: int| 0 <= k < seq.len() implies #[trigger] seq[k] < cylinders
                && !seq.take(k).contains(seq[k]) by {
                if seq.take(k).contains(seq[k]) {
                    let w = choose|w: int| 0 <= w < k && #[trigger] seq.take(k)[w] == seq[k];
                    assert(seq[w] == seq[k]);
                }
            }
        }
    }
}

/// A configuration that validates names only cylinder indices below
/// `MAX_CYLINDERS`, one per cylinder.
pub proof fn lemma_valid_config_indices(config: EngineConfig)
    requires
        config.spec_validate() is Ok,
    ensures
        1 <= config.cylinders <= MAX_CYLINDERS,
        is_firing_permutation(config.firing_sequence@, config.cylinders),
        forall|k: int|
            0 <= k < config.firing_sequence@.len() ==> #[trigger] config.firing_sequence@[k]
                < MAX_CYLINDERS,
{
    lemma_firing_scan_ok(config.firing_sequence@, config.cylinders, 0);
}

} // verus!
