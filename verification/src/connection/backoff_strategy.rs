use crate::config::BackoffConfig;
use vstd::arithmetic::div_mod::{lemma_div_denominator, lemma_div_is_ordered};
use vstd::arithmetic::div_mod::{lemma_div_by_multiple, lemma_fundamental_div_mod_converse};
use vstd::prelude::*;

verus! {

/// The smaller of two numbers.
pub open spec fn smaller(a: int, b: int) -> int {
    if a <= b {
        a
    } else {
        b
    }
}

/// `base` to the power `exponent`.
pub open spec fn power(base: int, exponent: nat) -> int
    decreases exponent,
{
    if exponent == 0 {
        1
    } else {
        base * power(base, (exponent - 1) as nat)
    }
}

/// The wait before retry number `attempt` as the growth alone gives it:
/// the first wait times the factor to the power `attempt`, in whole
/// milliseconds. The factor is in thousandths, and the one division is
/// made at the end.
pub open spec fn unbounded_wait(config: BackoffConfig, attempt: nat) -> int {
    config.initial_interval_ms * power(config.multiplier_permille as int, attempt) / power(
        1000,
        attempt,
    )
}

/// The wait before retry number `attempt`, counted from zero: what the
/// growth gives, or the longest wait where that is smaller.
pub open spec fn wait_before(config: BackoffConfig, attempt: nat) -> int {
    smaller(unbounded_wait(config, attempt), config.max_interval_ms as int)
}

/// The number that a run of digits to the base 1000 stands for, the least
/// significant digit first.
pub open spec fn digits_value(digits: Seq<u16>) -> int
    decreases digits.len(),
{
    if digits.len() == 0 {
        0
    } else {
        digits_value(digits.drop_last()) + digits.last() as int * power(
            1000,
            (digits.len() - 1) as nat,
        )
    }
}

/// Whether every digit is below 1000.
pub open spec fn digits_in_range(digits: Seq<u16>) -> bool {
    forall|i: int| 0 <= i < digits.len() ==> digits[i] < 1000
}

/// A power of a number that is not negative is not negative, and a power
/// of a positive number is positive.
pub proof fn lemma_power_sign(base: int, exponent: nat)
    requires
        base >= 0,
    ensures
        power(base, exponent) >= 0,
        base > 0 ==> power(base, exponent) > 0,
    decreases exponent,
{
    if exponent > 0 {
        lemma_power_sign(base, (exponent - 1) as nat);
        let rest = power(base, (exponent - 1) as nat);
        assert(base * rest >= 0) by (nonlinear_arith)
            requires
                base >= 0,
                rest >= 0,
        ;
        if base > 0 {
            assert(base * rest > 0) by (nonlinear_arith)
                requires
                    base > 0,
                    rest > 0,
            ;
        }
    }
}

/// Digits below 1000 stand for a number below 1000 to the power of their
/// count.
pub proof fn lemma_digits_below_power(digits: Seq<u16>)
    requires
        digits_in_range(digits),
    ensures
        0 <= digits_value(digits) < power(1000, digits.len()),
    decreases digits.len(),
{
    if digits.len() > 0 {
        let rest = digits.drop_last();
        assert(digits_in_range(rest)) by {
            assert forall|i: int| 0 <= i < rest.len() implies rest[i] < 1000 by {
                assert(rest[i] == digits[i]);
            }
        }
        lemma_digits_below_power(rest);
        let unit = power(1000, rest.len());
        let top = digits.last() as int;
        lemma_power_sign(1000, rest.len());
        assert(top * unit + unit <= 1000 * unit && top * unit >= 0) by (nonlinear_arith)
            requires
                0 <= top <= 999,
                unit > 0,
        ;
    }
}

/// Where a whole part and digits behind the point make up a number, the
/// whole part is that number divided by the weight of the point.
pub proof fn lemma_whole_part(whole: int, digits: Seq<u16>, number: int)
    requires
        digits_in_range(digits),
        whole * power(1000, digits.len()) + digits_value(digits) == number,
    ensures
        number / power(1000, digits.len()) == whole,
{
    lemma_digits_below_power(digits);
    lemma_power_sign(1000, digits.len());
    lemma_fundamental_div_mod_converse(
        number,
        power(1000, digits.len()),
        whole,
        digits_value(digits),
    );
}

/// With a factor of one or more, the growth never takes a wait back: the
/// wait before a later retry is at least the wait before an earlier one.
pub proof fn lemma_growth_never_shrinks(config: BackoffConfig, earlier: nat, later: nat)
    requires
        config.multiplier_permille >= 1000,
        earlier <= later,
    ensures
        0 <= unbounded_wait(config, earlier) <= unbounded_wait(config, later),
        wait_before(config, earlier) <= wait_before(config, later),
    decreases later - earlier,
{
    let p = config.multiplier_permille as int;
    let initial = config.initial_interval_ms as int;
    lemma_power_sign(p, earlier);
    lemma_power_sign(1000, earlier);
    let grown = power(p, earlier);
    let weight = power(1000, earlier);
    let number = initial * grown;
    assert(number >= 0) by (nonlinear_arith)
        requires
            number == initial * grown,
            initial >= 0,
            grown >= 0,
    ;
    lemma_div_is_ordered(0, number, weight);
    if earlier < later {
        let next = (earlier + 1) as nat;
        assert(power(p, next) == p * grown);
        assert(power(1000, next) == 1000 * weight);
        assert(initial * (p * grown) == number * p && number * 1000 <= number * p)
            by (nonlinear_arith)
            requires
                number == initial * grown,
                number >= 0,
                p >= 1000,
        ;
        assert(1000 * weight > 0) by (nonlinear_arith)
            requires
                weight > 0,
        ;
        lemma_div_is_ordered(number * 1000, number * p, 1000 * weight);
        lemma_div_denominator(number * 1000, 1000, weight);
        lemma_div_by_multiple(number, 1000);
        assert(unbounded_wait(config, earlier) <= unbounded_wait(config, next));
        lemma_growth_never_shrinks(config, next, later);
    }
}

/// No wait is negative or longer than the longest wait.
pub proof fn lemma_wait_bounded(config: BackoffConfig, attempt: nat)
    ensures
        0 <= wait_before(config, attempt) <= config.max_interval_ms,
{
    let p = config.multiplier_permille as int;
    let initial = config.initial_interval_ms as int;
    lemma_power_sign(p, attempt);
    lemma_power_sign(1000, attempt);
    let grown = power(p, attempt);
    assert(initial * grown >= 0) by (nonlinear_arith)
        requires
            initial >= 0,
            grown >= 0,
    ;
    lemma_div_is_ordered(0, initial * grown, power(1000, attempt));
}

/// With a factor that is a whole number, the wait before retry number
/// `attempt` is the first wait times the factor to the power `attempt`,
/// or the longest wait where that is smaller.
pub proof fn lemma_whole_factor_schedule(config: BackoffConfig, attempt: nat)
    requires
        config.multiplier_permille % 1000 == 0,
    ensures
        wait_before(config, attempt) == smaller(
            config.initial_interval_ms * power(config.multiplier_permille as int / 1000, attempt),
            config.max_interval_ms as int,
        ),
{
    let factor = config.multiplier_permille as int / 1000;
    lemma_power_of_product(factor, attempt);
    lemma_power_sign(1000, attempt);
    lemma_power_sign(factor, attempt);
    let initial = config.initial_interval_ms as int;
    let grown = power(factor, attempt);
    let weight = power(1000, attempt);
    assert(initial * (grown * weight) == (initial * grown) * weight && initial * grown >= 0)
        by (nonlinear_arith)
        requires
            initial >= 0,
            grown >= 0,
    ;
    lemma_div_by_multiple(initial * grown, weight);
}

/// A power of a thousandfold is the power times the power of a thousand.
proof fn lemma_power_of_product(factor: int, exponent: nat)
    ensures
        power(1000 * factor, exponent) == power(factor, exponent) * power(1000, exponent),
    decreases exponent,
{
    if exponent > 0 {
        let before = (exponent - 1) as nat;
        lemma_power_of_product(factor, before);
        let a = power(factor, before);
        let b = power(1000, before);
        assert((1000 * factor) * (a * b) == (factor * a) * (1000 * b)) by (nonlinear_arith);
    }
}

/// The wait before retry number `attempt`.
///
/// The growth is followed exactly: the whole milliseconds are kept in
/// `whole`, and what lies behind the point in digits to the base 1000, so
/// that nothing is rounded before the end. With a factor of one or more
/// the work stops as soon as the longest wait is reached.
pub fn wait_for(config: &BackoffConfig, attempt: u64) -> (wait: u64)
    ensures
        wait == wait_before(*config, attempt as nat),
{
    let factor = config.multiplier_permille;
    let longest = config.max_interval_ms;
    let mut whole: u64 = config.initial_interval_ms;
    let mut fraction: Vec<u16> = Vec::new();
    let mut done: u64 = 0;
    while done < attempt
        invariant
            done <= attempt,
            factor == config.multiplier_permille,
            longest == config.max_interval_ms,
            fraction@.len() == done,
            digits_in_range(fraction@),
            whole * power(1000, done as nat) + digits_value(fraction@)
                == config.initial_interval_ms * power(factor as int, done as nat),
        decreases attempt - done,
    {
        if factor >= 1000 && whole >= longest {
            proof {
                lemma_whole_part(
                    whole as int,
                    fraction@,
                    config.initial_interval_ms * power(factor as int, done as nat),
                );
                lemma_growth_never_shrinks(*config, done as nat, attempt as nat);
            }
            return longest;
        }
        let mut scaled: Vec<u16> = Vec::new();
        let mut carry: u64 = 0;
        let mut j: usize = 0;
        while j < fraction.len()
            invariant
                j <= fraction.len(),
                scaled@.len() == j,
                digits_in_range(scaled@),
                digits_in_range(fraction@),
                carry <= factor,
                digits_value(scaled@) + carry * power(1000, j as nat) == factor * digits_value(
                    fraction@.take(j as int),
                ),
            decreases fraction.len() - j,
        {
            let digit = fraction[j];
            assert(digit as int * factor as int + carry as int <= 1000 * factor as int)
                by (nonlinear_arith)
                requires
                    digit < 1000,
                    carry <= factor,
            ;
            let product: u128 = digit as u128 * factor as u128 + carry as u128;
            let low = (product % 1000) as u16;
            let ghost before = scaled@;
            let ghost old_carry = carry as int;
            scaled.push(low);
            carry = (product / 1000) as u64;
            proof {
                let unit = power(1000, j as nat);
                let taken = fraction@.take(j + 1);
                assert(taken.drop_last() == fraction@.take(j as int));
                assert(taken.last() == digit);
                assert(scaled@.drop_last() == before);
                assert(power(1000, (j + 1) as nat) == 1000 * unit);
                assert(low as int + 1000 * carry as int == product);
                assert(low as int * unit + carry as int * (1000 * unit) + digits_value(before)
                    == factor as int * (digits_value(fraction@.take(j as int)) + digit as int
                    * unit)) by (nonlinear_arith)
                    requires
                        low as int + 1000 * carry as int == digit as int * factor as int
                            + old_carry,
                        digits_value(before) + old_carry * unit == factor as int * digits_value(
                            fraction@.take(j as int),
                        ),
                ;
                assert forall|i: int| 0 <= i < scaled@.len() implies scaled@[i] < 1000 by {
                    if i < j {
                        assert(scaled@[i] == before[i]);
                    }
                }
            }
            j += 1;
        }
        assert(whole as int * factor as int + carry as int <= u64::MAX * u64::MAX + u64::MAX)
            by (nonlinear_arith)
            requires
                whole <= u64::MAX,
                factor <= u64::MAX,
                carry <= u64::MAX,
        ;
        let product: u128 = whole as u128 * factor as u128 + carry as u128;
        let low = (product % 1000) as u16;
        let next: u128 = product / 1000;
        let ghost before = scaled@;
        scaled.push(low);
        proof {
            let unit = power(1000, done as nat);
            let grown = power(factor as int, done as nat);
            assert(fraction@.take(fraction@.len() as int) == fraction@);
            assert(scaled@.drop_last() == before);
            assert(power(1000, (done + 1) as nat) == 1000 * unit);
            assert(power(factor as int, (done + 1) as nat) == factor as int * grown);
            assert(low as int + 1000 * next as int == product);
            assert(next as int * (1000 * unit) + (digits_value(before) + low as int * unit)
                == config.initial_interval_ms as int * (factor as int * grown))
                by (nonlinear_arith)
                requires
                    low as int + 1000 * next as int == whole as int * factor as int
                        + carry as int,
                    digits_value(before) + carry as int * unit == factor as int * digits_value(
                        fraction@,
                    ),
                    whole as int * unit + digits_value(fraction@)
                        == config.initial_interval_ms as int * grown,
            ;
            assert forall|i: int| 0 <= i < scaled@.len() implies scaled@[i] < 1000 by {
                if i < before.len() {
                    assert(scaled@[i] == before[i]);
                }
            }
        }
        if next > u64::MAX as u128 {
            proof {
                lemma_whole_part(
                    next as int,
                    scaled@,
                    config.initial_interval_ms * power(factor as int, (done + 1) as nat),
                );
                assert(factor >= 1000) by (nonlinear_arith)
                    requires
                        1000 * next as int <= whole as int * factor as int + carry as int,
                        carry <= factor,
                        next > u64::MAX,
                        whole <= u64::MAX,
                ;
                lemma_growth_never_shrinks(*config, (done + 1) as nat, attempt as nat);
            }
            return longest;
        }
        whole = next as u64;
        fraction = scaled;
        done += 1;
    }
    proof {
        lemma_whole_part(
            whole as int,
            fraction@,
            config.initial_interval_ms * power(factor as int, attempt as nat),
        );
    }
    if whole <= longest {
        whole
    } else {
        longest
    }
}

/// A schedule of waits between retries that grow up to a longest wait,
/// and end after a number of retries.
#[derive(Debug, Clone, Copy, PartialEq, Eq, Structural)]
pub struct BackoffStrategy {
    config: BackoffConfig,
    current_attempt: u64,
}

impl BackoffStrategy {
    /// The schedule's configuration.
    pub closed spec fn settings(self) -> BackoffConfig {
        self.config
    }

    /// The number of waits handed out since the start or the last reset.
    pub closed spec fn attempts(self) -> u64 {
        self.current_attempt
    }

    /// A schedule at its start.
    pub fn new(config: BackoffConfig) -> (s: Self)
        ensures
            s.settings() == config,
            s.attempts() == 0,
    {
        BackoffStrategy { config, current_attempt: 0 }
    }

    /// The wait before the next retry in milliseconds, or nothing once as
    /// many waits were handed out as retries are allowed.
    pub fn next_backoff(&mut self) -> (wait: Option<u64>)
        ensures
            final(self).settings() == old(self).settings(),
            old(self).attempts() >= old(self).settings().max_retries ==> wait is None
                && final(self).attempts() == old(self).attempts(),
            old(self).attempts() < old(self).settings().max_retries ==> wait == Some(
                wait_before(old(self).settings(), old(self).attempts() as nat) as u64,
            ) && final(self).attempts() == old(self).attempts() + 1,
            wait matches Some(w) ==> w == wait_before(
                old(self).settings(),
                old(self).attempts() as nat,
            ) && w <= old(self).settings().max_interval_ms,
    {
        if self.current_attempt >= self.config.max_retries {
            return None;
        }
        let wait = wait_for(&self.config, self.current_attempt);
        self.current_attempt = self.current_attempt + 1;
        Some(wait)
    }

    /// Starts the schedule over.
    pub fn reset(&mut self)
        ensures
            final(self).settings() == old(self).settings(),
            final(self).attempts() == 0,
    {
        self.current_attempt = 0;
    }
}

} // verus!
