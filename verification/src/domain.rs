use vstd::prelude::*;

verus! {

/// The generator type of `rand` that genes draw from. Nothing is known of
/// what a generator holds; it is only carried to the code that draws.
#[verifier::external_type_specification]
#[verifier::external_body]
pub struct ExStdRng(rand::rngs::StdRng);

/// The tolerance used by default when two fitness values are compared: the
/// bits of 0.0001.
pub const DEFAULT_EQUALITY_THRESHOLD: u64 = 0x3f1a_36e2_eb1c_432d;

/// The fitness of an individual that was not evaluated yet: the bits of the
/// quiet not-a-number.
pub const UNEVALUATED: u64 = 0x7ff8_0000_0000_0000;

/// The multiplier by which `hash` folds one element into the next.
pub const HASH_MULTIPLIER: u64 = 31;

/// The sign of a double-precision number given by its bits: set for the
/// numbers below zero and for the negative zero.
pub open spec fn sign(bits: u64) -> bool {
    bits / 0x8000_0000_0000_0000 == 1
}

/// The eleven exponent bits of a double-precision number given by its bits.
pub open spec fn exponent(bits: u64) -> u64 {
    (bits / 0x10_0000_0000_0000) % 0x800
}

/// The fifty-two fraction bits of a double-precision number given by its
/// bits.
pub open spec fn fraction(bits: u64) -> u64 {
    bits % 0x10_0000_0000_0000
}

/// Whether `bits`, read as a double-precision number, is not a number: its
/// exponent is all ones and its fraction is not zero, whatever its sign.
pub open spec fn is_nan(bits: u64) -> bool {
    exponent(bits) == 0x7ff && fraction(bits) != 0
}

/// Whether `bits`, read as a double-precision number, is less than zero: its
/// sign is set, and it is neither a zero nor not a number.
pub open spec fn is_negative(bits: u64) -> bool {
    sign(bits) && !is_nan(bits) && !(exponent(bits) == 0 && fraction(bits) == 0)
}

/// Tells whether `bits`, read as a double-precision number, is not a number.
pub fn bits_are_nan(bits: u64) -> (nan: bool)
    ensures
        nan == is_nan(bits),
{
    assert(((0x7ff0_0000_0000_0000 < bits && bits <= 0x7fff_ffff_ffff_ffff)
        || 0xfff0_0000_0000_0000 < bits) <==> ((bits / 0x10_0000_0000_0000) % 0x800 == 0x7ff
        && bits % 0x10_0000_0000_0000 != 0)) by (bit_vector);
    (0x7ff0_0000_0000_0000 < bits && bits <= 0x7fff_ffff_ffff_ffff) || 0xfff0_0000_0000_0000
        < bits
}

/// Tells whether `bits`, read as a double-precision number, is less than
/// zero.
pub fn bits_are_negative(bits: u64) -> (negative: bool)
    ensures
        negative == is_negative(bits),
{
    assert((0x8000_0000_0000_0000 < bits && bits <= 0xfff0_0000_0000_0000) <==> (bits
        / 0x8000_0000_0000_0000 == 1 && !((bits / 0x10_0000_0000_0000) % 0x800 == 0x7ff && bits
        % 0x10_0000_0000_0000 != 0) && !((bits / 0x10_0000_0000_0000) % 0x800 == 0 && bits
        % 0x10_0000_0000_0000 == 0))) by (bit_vector);
    0x8000_0000_0000_0000 < bits && bits <= 0xfff0_0000_0000_0000
}

/// Why a threshold was refused.
#[derive(Debug, Clone, Copy, PartialEq, Eq)]
pub enum ThresholdError {
    /// The value is less than zero.
    Negative,
    /// The value is not a number.
    NotANumber,
}

/// The tolerance within which two fitness values count as equal, held as the
/// bits of a double-precision number. It belongs to one execution context:
/// contexts with different thresholds do not disturb each other. It is never
/// negative and always a number.
#[derive(Debug, Clone, Copy)]
pub struct EqualityThreshold {
    bits: u64,
}

impl EqualityThreshold {
    /// The bits of the threshold.
    pub closed spec fn view(&self) -> u64 {
        self.bits
    }

    /// The threshold is a number and not negative.
    pub open spec fn wf(&self) -> bool {
        !is_nan(self@) && !is_negative(self@)
    }

    /// Whether `value` can be a threshold, or else why not.
    pub open spec fn check(value: u64) -> Result<(), ThresholdError> {
        if is_negative(value) {
            Err(ThresholdError::Negative)
        } else if is_nan(value) {
            Err(ThresholdError::NotANumber)
        } else {
            Ok(())
        }
    }

    /// The threshold after an attempt to set it to `value`: on success
    /// `value`, otherwise what it was.
    pub open spec fn after_set(&self, value: u64) -> u64 {
        if Self::check(value) is Ok {
            value
        } else {
            self@
        }
    }

    /// The default threshold.
    pub fn new() -> (threshold: EqualityThreshold)
        ensures
            threshold@ == DEFAULT_EQUALITY_THRESHOLD,
            threshold.wf(),
    {
        EqualityThreshold { bits: DEFAULT_EQUALITY_THRESHOLD }
    }
}

/// Sets the threshold to `value`, the bits of a double-precision number. A
/// negative value and one that is not a number are refused, and the
/// threshold stays what it was.
pub fn set_equality_threshold(threshold: &mut EqualityThreshold, value: u64) -> (outcome: Result<
    (),
    ThresholdError,
>)
    ensures
        outcome == EqualityThreshold::check(value),
        final(threshold)@ == old(threshold).after_set(value),
        old(threshold).wf() ==> final(threshold).wf(),
{
    if bits_are_negative(value) {
        return Err(ThresholdError::Negative);
    }
    if bits_are_nan(value) {
        return Err(ThresholdError::NotANumber);
    }
    threshold.bits = value;
    Ok(())
}

/// Returns the current threshold, as the bits of a double-precision number.
pub fn get_equality_threshold(threshold: &EqualityThreshold) -> (bits: u64)
    ensures
        bits == threshold@,
{
    threshold.bits
}

/// A threshold that is a number and not negative is accepted, and is then
/// exactly what is read back.
pub proof fn accepted_threshold_is_read_back(threshold: EqualityThreshold, value: u64)
    requires
        !is_nan(value),
        !is_negative(value),
    ensures
        EqualityThreshold::check(value) is Ok,
        threshold.after_set(value) == value,
{
}

/// A threshold that is negative or not a number is refused, and what is read
/// back is what was stored before.
pub proof fn refused_threshold_changes_nothing(threshold: EqualityThreshold, value: u64)
    requires
        is_nan(value) || is_negative(value),
    ensures
        EqualityThreshold::check(value) is Err,
        threshold.after_set(value) == threshold@,
{
}

/// How an individual is written out.
#[derive(Debug, Clone, Copy)]
pub enum ToStringMode {
    /// Compact: representation, an arrow, fitness.
    Simple,
    /// Detailed: both parts named.
    Default,
}

/// The hash of no elements: what `hash` starts from.
pub const HASH_SEED: u64 = 17;

/// One step of `hash`: the accumulator times the multiplier, plus the
/// element's hash, within 64 bits.
pub open spec fn hash_step(accumulator: u64, element: u64) -> u64 {
    ((accumulator * HASH_MULTIPLIER + element) % 0x1_0000_0000_0000_0000) as u64
}

/// The hash of `elements`, folded in from first to last.
pub open spec fn hash_of(elements: Seq<u64>) -> u64
    decreases elements.len(),
{
    if elements.len() == 0 {
        HASH_SEED
    } else {
        hash_step(hash_of(elements.drop_last()), elements.last())
    }
}

/// One step of the hash tells accumulators apart and elements apart: if
/// either differs and the other is the same, the results differ.
pub proof fn hash_step_is_injective(accumulator: u64, element: u64, other: u64)
    ensures
        accumulator != other ==> hash_step(accumulator, element) != hash_step(other, element),
        element != other ==> hash_step(accumulator, element) != hash_step(accumulator, other),
{
    assert(accumulator != other ==> (accumulator * 31 + element) % 0x1_0000_0000_0000_0000 != (
    other * 31 + element) % 0x1_0000_0000_0000_0000) by (bit_vector);
    assert(element != other ==> (accumulator * 31 + element) % 0x1_0000_0000_0000_0000 != (
    accumulator * 31 + other) % 0x1_0000_0000_0000_0000) by (bit_vector);
}

/// Two sequences of one length that differ in exactly one place have
/// different hashes.
pub proof fn hash_tells_one_change_apart(first: Seq<u64>, second: Seq<u64>, at: int)
    requires
        first.len() == second.len(),
        0 <= at < first.len(),
        first[at] != second[at],
        forall|i: int| 0 <= i < first.len() && i != at ==> first[i] == second[i],
    ensures
        hash_of(first) != hash_of(second),
    decreases first.len(),
{
    if at == first.len() - 1 {
        assert(first.drop_last() =~= second.drop_last());
        hash_step_is_injective(hash_of(first.drop_last()), first.last(), second.last());
    } else {
        hash_tells_one_change_apart(first.drop_last(), second.drop_last(), at);
        hash_step_is_injective(
            hash_of(first.drop_last()),
            first.last(),
            hash_of(second.drop_last()),
        );
    }
}

/// Combines the hashes of a sequence of elements into one. The order of the
/// elements counts.
pub fn hash(elements: &Vec<u64>) -> (code: u64)
    ensures
        code == hash_of(elements@),
{
    let mut code: u64 = HASH_SEED;
    let mut i: usize = 0;
    while i < elements.len()
        invariant
            i <= elements.len(),
            code == hash_of(elements@.take(i as int)),
        decreases elements.len() - i,
    {
        proof {
            assert(elements@.take(i + 1).drop_last() == elements@.take(i as int));
        }
        code = code.wrapping_mul(HASH_MULTIPLIER).wrapping_add(elements[i]);
        i += 1;
    }
    proof {
        assert(elements@.take(i as int) == elements@);
    }
    code
}

} // verus!
