//! Process-wide runtime configuration of the mutation-testing engine.
//!
//! A process executes with at most one active mutation, selected by a
//! non-negative identifier; identifier 0 means "baseline", i.e. no mutation is
//! active and every instrumented expression behaves as the original one.  The
//! configuration is built once, from the value of an environment variable that
//! the (unverified) process entry point reads and hands over as plain bytes;
//! absence of the variable or a malformed value degrades to the baseline.

use vstd::prelude::*;

verus! {

/// ASCII `0`.
pub const DIGIT_ZERO: u8 = 48;

/// ASCII `9`.
pub const DIGIT_NINE: u8 = 57;

/// ASCII `+`.
pub const PLUS_SIGN: u8 = 43;

/// The runtime configuration of one process execution: the identifier of the
/// single active mutation, or 0 for the baseline.
#[derive(Clone, Copy)]
pub struct MutagenRuntimeConfig {
    pub mutation_id: u32,
}

/// True of an ASCII decimal digit.
pub open spec fn spec_is_digit(b: u8) -> bool {
    DIGIT_ZERO <= b && b <= DIGIT_NINE
}

/// The number denoted by a sequence of ASCII decimal digits, most significant
/// digit first.
pub open spec fn spec_digits_value(s: Seq<u8>) -> int
    decreases s.len(),
{
    if s.len() == 0 {
        0
    } else {
        spec_digits_value(s.drop_last()) * 10 + (s.last() - DIGIT_ZERO)
    }
}

/// True if every byte of the sequence is an ASCII decimal digit.
pub open spec fn spec_all_digits(s: Seq<u8>) -> bool {
    forall|i: int| 0 <= i < s.len() ==> spec_is_digit(s[i])
}

/// The digit bytes of a numeral: everything after an optional leading `+`.
pub open spec fn spec_digit_bytes(s: Seq<u8>) -> Seq<u8> {
    if s.len() > 0 && s[0] == PLUS_SIGN {
        s.subrange(1, s.len() as int)
    } else {
        s
    }
}

/// The value that parsing the bytes as a `u32` yields: an optional leading
/// `+`, then at least one decimal digit, and the denoted number must fit.
/// Anything else parses to nothing.
pub open spec fn spec_parse_u32(s: Seq<u8>) -> Option<u32> {
    let digits = spec_digit_bytes(s);
    if digits.len() > 0 && spec_all_digits(digits) && spec_digits_value(digits) <= u32::MAX {
        Some(spec_digits_value(digits) as u32)
    } else {
        None
    }
}

/// The mutation identifier selected by an environment value: the parsed
/// number, or 0 (baseline) when the variable is absent or malformed.
pub open spec fn spec_env_mutation_id(env_value: Option<&[u8]>) -> u32 {
    match env_value {
        Some(s) => match spec_parse_u32(s@) {
            Some(v) => v,
            None => 0,
        },
        None => 0,
    }
}

/// Appending one digit multiplies the denoted number by ten and adds the
/// digit, so the number never shrinks.
proof fn lemma_digits_value_push(s: Seq<u8>, b: u8)
    ensures
        spec_digits_value(s.push(b)) == spec_digits_value(s) * 10 + (b - DIGIT_ZERO),
{
    assert(s.push(b).drop_last() =~= s);
    assert(s.push(b).last() == b);
}

/// Parse an ASCII decimal `u32`, as the environment variable holding the
/// active mutation identifier is parsed: an optional leading `+`, then at
/// least one digit, and the value must fit in a `u32`.
pub fn parse_u32(s: &[u8]) -> (r: Option<u32>)
    ensures
        r == spec_parse_u32(s@),
{
    let len = s.len();
    let start: usize = if len > 0 && s[0] == PLUS_SIGN {
        1
    } else {
        0
    };
    let ghost digits = spec_digit_bytes(s@);
    proof {
        assert(s@.subrange(0, len as int) =~= s@);
        assert(digits == s@.subrange(start as int, len as int));
    }
    if start == len {
        return None;
    }
    // Accumulate the value; once it can no longer fit in a u32, pin the
    // accumulator just above the range so overflow stays detected.
    let mut acc: u64 = 0;
    let mut i: usize = start;
    while i < len
        invariant
            start <= i <= len,
            len == s@.len(),
            digits == spec_digit_bytes(s@),
            digits == s@.subrange(start as int, len as int),
            spec_all_digits(s@.subrange(start as int, i as int)),
            acc <= u32::MAX as u64 + 1,
            spec_digits_value(s@.subrange(start as int, i as int)) <= u32::MAX
                ==> acc == spec_digits_value(s@.subrange(start as int, i as int)),
            spec_digits_value(s@.subrange(start as int, i as int)) > u32::MAX
                ==> acc > u32::MAX as u64,
        decreases len - i,
    {
        let b = s[i];
        if b < DIGIT_ZERO || b > DIGIT_NINE {
            proof {
                assert(digits[i - start] == b);
                assert(!spec_all_digits(digits));
            }
            return None;
        }
        let d = (b - DIGIT_ZERO) as u64;
        proof {
            lemma_digits_value_push(s@.subrange(start as int, i as int), b);
            assert(s@.subrange(start as int, i as int + 1)
                =~= s@.subrange(start as int, i as int).push(b));
        }
        if acc > u32::MAX as u64 {
            acc = u32::MAX as u64 + 1;
        } else {
            acc = acc * 10 + d;
            if acc > u32::MAX as u64 {
                acc = u32::MAX as u64 + 1;
            }
        }
        i = i + 1;
    }
    if acc <= u32::MAX as u64 {
        Some(acc as u32)
    } else {
        None
    }
}

impl MutagenRuntimeConfig {
    /// True of the identifier selected for this execution, and of no other.
    pub open spec fn spec_is_active(self, mutation_id: u32) -> bool {
        self.mutation_id == mutation_id
    }

    /// Build the configuration from the raw value of the selecting
    /// environment variable; absence or a malformed value means baseline.
    pub fn from_env_value(env_value: Option<&[u8]>) -> (r: Self)
        ensures
            r.mutation_id == spec_env_mutation_id(env_value),
    {
        let mutation_id = match env_value {
            Some(s) => match parse_u32(s) {
                Some(v) => v,
                None => 0,
            },
            None => 0,
        };
        MutagenRuntimeConfig { mutation_id }
    }

    /// The currently active runtime configuration: the cached one if the
    /// process already initialized it, else the one the environment value
    /// selects, which is then cached.  The caller owns the process-wide
    /// cache cell and the one-time environment lookup.
    pub fn get_default(cache: &mut Option<MutagenRuntimeConfig>, env_value: Option<&[u8]>) -> (r:
        MutagenRuntimeConfig)
        ensures
            match *old(cache) {
                Some(c) => r == c && *final(cache) == Some(c),
                None => r.mutation_id == spec_env_mutation_id(env_value) && *final(cache) == Some(
                    r,
                ),
            },
    {
        match cache {
            Some(config) => *config,
            None => {
                let env_config = MutagenRuntimeConfig::from_env_value(env_value);
                *cache = Some(env_config);
                env_config
            },
        }
    }

    /// A configuration with the given mutation active.
    pub fn with_mutation_id(mutation_id: u32) -> (r: Self)
        ensures
            r.mutation_id == mutation_id,
    {
        MutagenRuntimeConfig { mutation_id }
    }

    /// The baseline configuration: no mutation active.
    pub fn without_mutation() -> (r: Self)
        ensures
            r.mutation_id == 0,
    {
        MutagenRuntimeConfig { mutation_id: 0 }
    }

    /// Whether the given mutation is the active one; exact match, so at most
    /// one identifier is ever reported active.
    pub fn is_mutation_active(&self, mutation_id: u32) -> (r: bool)
        ensures
            r == self.spec_is_active(mutation_id),
    {
        self.mutation_id == mutation_id
    }

    /// Whether the active mutation falls within the half-open identifier
    /// range `[mutator_id, mutator_id + num_mutations)` of one site that
    /// expanded into several candidate mutations.
    pub fn in_bounds(&self, mutator_id: u32, num_mutations: u32) -> (r: bool)
        ensures
            r == (mutator_id <= self.mutation_id && (self.mutation_id as int) < mutator_id
                + num_mutations),
    {
        mutator_id <= self.mutation_id && self.mutation_id - mutator_id < num_mutations
    }

    /// The locally-numbered mutation that the active identifier selects:
    /// the active identifier, offset against the site's first identifier,
    /// indexes the site's own records.  Nothing is selected when the active
    /// identifier precedes or overshoots the site's range.
    pub fn get_mutation<'a, T>(&self, mutator_id: u32, mutations: &'a [T]) -> (r: Option<&'a T>)
        ensures
            match r {
                Some(m) => mutator_id <= self.mutation_id && self.mutation_id - mutator_id
                    < mutations@.len() && *m == mutations@[self.mutation_id - mutator_id],
                None => self.mutation_id < mutator_id || self.mutation_id - mutator_id
                    >= mutations@.len(),
            },
    {
        if self.mutation_id < mutator_id {
            return None;
        }
        let index = (self.mutation_id - mutator_id) as usize;
        if index < mutations.len() {
            Some(&mutations[index])
        } else {
            None
        }
    }
}

/// At most one mutation identifier is active in a given configuration: if two
/// identifiers both test active, they are the same identifier.
pub proof fn lemma_at_most_one_active(config: MutagenRuntimeConfig, a: u32, b: u32)
    requires
        config.spec_is_active(a),
        config.spec_is_active(b),
    ensures
        a == b,
{
}

} // verus!
