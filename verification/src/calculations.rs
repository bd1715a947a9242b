//! Input-domain rules of the statistics engine.
//!
//! The engine computes two risk metrics over series of real numbers: the
//! Sharpe ratio of a return series and the realized volatility of a price
//! series. The arithmetic itself is floating point and therefore lives with
//! the callers; what is fixed here, with proofs, is the engine's edge-case
//! policy: for which input shapes a metric is computed at all, and how long
//! the derived log-return series of the volatility computation is. Degenerate
//! inputs map to the sentinel value zero by design, never to an error.

use vstd::prelude::*;

verus! {

/// A Sharpe ratio carries a signal only when at least one return is present;
/// an empty return series yields the sentinel value zero.
pub open spec fn spec_sharpe_ratio_defined(n_returns: nat) -> bool {
    n_returns > 0
}

/// Volatility is a dispersion of consecutive-pair log-returns, so it needs at
/// least two prices; shorter series yield the sentinel value zero.
pub open spec fn spec_volatility_defined(n_prices: nat) -> bool {
    n_prices >= 2
}

/// Length of the log-return series derived from a price series: one value for
/// each adjacent pair of prices, none when volatility is not defined.
pub open spec fn spec_log_return_count(n_prices: nat) -> nat {
    if n_prices >= 2 {
        (n_prices - 1) as nat
    } else {
        0
    }
}

/// Whether the Sharpe ratio is computed for a return series of the given
/// length, rather than answered with the sentinel value zero.
pub fn sharpe_ratio_defined(n_returns: usize) -> (defined: bool)
    ensures
        defined == spec_sharpe_ratio_defined(n_returns as nat),
{
    n_returns > 0
}

/// Whether realized volatility is computed for a price series of the given
/// length, rather than answered with the sentinel value zero.
pub fn volatility_defined(n_prices: usize) -> (defined: bool)
    ensures
        defined == spec_volatility_defined(n_prices as nat),
{
    n_prices >= 2
}

/// How many log-returns the volatility computation derives from a price
/// series of the given length.
pub fn log_return_count(n_prices: usize) -> (n: usize)
    ensures
        n == spec_log_return_count(n_prices as nat),
{
    if n_prices >= 2 {
        n_prices - 1
    } else {
        0
    }
}

/// Volatility is defined exactly when the derived log-return series is
/// non-empty, so its mean and standard deviation never divide by zero.
pub proof fn lemma_log_returns_nonempty_iff_defined(n_prices: nat)
    ensures
        spec_volatility_defined(n_prices) <==> spec_log_return_count(n_prices) > 0,
{
}

} // verus!
