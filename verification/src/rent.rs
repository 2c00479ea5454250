//! What an account must hold to keep its storage, as the host's rent
//! schedule prices it.
use vstd::prelude::*;
use solana_program::rent::Rent;

verus! {

/// The host's rent schedule. Its fields are not visible to proofs; what
/// is known of a schedule is what the two names below say.
#[verifier::external_type_specification]
#[verifier::external_body]
pub struct ExRent(solana_program::rent::Rent);

/// The rate of a schedule, in lamports per byte and year: the value of
/// the field `lamports_per_byte_year` of `solana_program::rent::Rent`.
pub uninterp spec fn rent_lamports_per_byte_year(rent: Rent) -> u64;

/// What `solana_program::rent::Rent::minimum_balance` returns for a
/// schedule and a data length: the least balance that exempts an account
/// of that length from rent.
pub uninterp spec fn rent_minimum_balance(rent: Rent, data_len: usize) -> u64;

/// Bytes the host adds to an account's data length before it prices it.
pub const ACCOUNT_STORAGE_OVERHEAD: u64 = 128;

/// Whether the schedule can price `data_len` bytes: the priced length
/// times the rate fits in sixty-four bits.
pub open spec fn rent_prices(rent: Rent, data_len: usize) -> bool {
    (ACCOUNT_STORAGE_OVERHEAD + data_len) * rent_lamports_per_byte_year(rent) <= u64::MAX
        && ACCOUNT_STORAGE_OVERHEAD + data_len <= u64::MAX
}

/// Reads the field `lamports_per_byte_year` of
/// `solana_program::rent::Rent`. Trusted: the result is the schedule's
/// rate.
#[verifier::external_body]
fn lamports_per_byte_year(rent: &Rent) -> (rate: u64)
    ensures
        rate == rent_lamports_per_byte_year(*rent),
{
    rent.lamports_per_byte_year
}

/// Calls `solana_program::rent::Rent::minimum_balance`. Trusted: the
/// result is a function of the schedule and the length alone. The call
/// multiplies the length plus the storage overhead by the rate in
/// sixty-four bits before it goes on in floating point, so lengths for
/// which that product overflows are kept out.
#[verifier::external_body]
fn minimum_balance(rent: &Rent, data_len: usize) -> (lamports: u64)
    requires
        rent_prices(*rent, data_len),
    ensures
        lamports == rent_minimum_balance(*rent, data_len),
{
    rent.minimum_balance(data_len)
}

/// The least balance that exempts `data_len` bytes from rent, or `None`
/// where the schedule cannot price that length.
pub fn checked_minimum_balance(rent: &Rent, data_len: usize) -> (lamports: Option<u64>)
    ensures
        lamports == spec_checked_minimum_balance(*rent, data_len as int),
{
    let rate = lamports_per_byte_year(rent);
    let len = data_len as u64;
    if len > u64::MAX - ACCOUNT_STORAGE_OVERHEAD {
        return None;
    }
    let priced = ACCOUNT_STORAGE_OVERHEAD + len;
    if rate != 0 && priced > u64::MAX / rate {
        proof {
            lemma_product_exceeds(priced as int, rate as int);
        }
        return None;
    }
    proof {
        if rate != 0 {
            lemma_product_fits(priced as int, rate as int);
        } else {
            assert(priced * rate == 0) by (nonlinear_arith)
                requires
                    rate == 0,
            ;
        }
    }
    Some(minimum_balance(rent, data_len))
}

/// The least rent-exempt balance for a length given as an integer:
/// `None` where the length is no `usize` or the schedule cannot price it.
pub open spec fn spec_checked_minimum_balance(rent: Rent, data_len: int) -> Option<u64> {
    if 0 <= data_len <= usize::MAX && rent_prices(rent, data_len as usize) {
        Some(rent_minimum_balance(rent, data_len as usize))
    } else {
        None
    }
}

/// What a program account with a payload of `size` bytes must hold:
/// nothing when it is empty, else the rent-exempt minimum for header and
/// payload, and at least one lamport. `None` where that minimum cannot be
/// computed.
pub open spec fn spec_required_balance(rent: Rent, size: u32) -> Option<u64> {
    if size == 0 {
        Some(0)
    } else {
        match spec_checked_minimum_balance(rent, 48 + size) {
            Some(minimum) => Some(if minimum < 1 { 1u64 } else { minimum }),
            None => None,
        }
    }
}

/// What a program account with a payload of `size` bytes must hold.
pub fn required_balance(rent: &Rent, size: u32) -> (lamports: Option<u64>)
    ensures
        lamports == spec_required_balance(*rent, size),
{
    if size == 0 {
        return Some(0);
    }
    if size as u64 > usize::MAX as u64 - 48 {
        return None;
    }
    match checked_minimum_balance(rent, 48 + size as usize) {
        Some(minimum) => Some(if minimum < 1 { 1 } else { minimum }),
        None => None,
    }
}

proof fn lemma_product_exceeds(priced: int, rate: int)
    requires
        rate > 0,
        priced > u64::MAX / (rate as u64),
        rate <= u64::MAX,
    ensures
        priced * rate > u64::MAX,
{
    let q = (u64::MAX as int) / rate;
    assert(u64::MAX == rate * q + (u64::MAX as int) % rate) by {
        vstd::arithmetic::div_mod::lemma_fundamental_div_mod(u64::MAX as int, rate);
    }
    assert((u64::MAX as int) % rate < rate) by {
        vstd::arithmetic::div_mod::lemma_mod_bound(u64::MAX as int, rate);
    }
    assert(priced * rate >= (q + 1) * rate) by (nonlinear_arith)
        requires
            priced >= q + 1,
            rate > 0,
    ;
    assert((q + 1) * rate == rate * q + rate) by (nonlinear_arith);
}

proof fn lemma_product_fits(priced: int, rate: int)
    requires
        rate > 0,
        0 <= priced <= u64::MAX / (rate as u64),
        rate <= u64::MAX,
    ensures
        priced * rate <= u64::MAX,
{
    let q = (u64::MAX as int) / rate;
    assert(u64::MAX == rate * q + (u64::MAX as int) % rate) by {
        vstd::arithmetic::div_mod::lemma_fundamental_div_mod(u64::MAX as int, rate);
    }
    assert(0 <= (u64::MAX as int) % rate) by {
        vstd::arithmetic::div_mod::lemma_mod_bound(u64::MAX as int, rate);
    }
    assert(priced * rate <= q * rate) by (nonlinear_arith)
        requires
            priced <= q,
            rate > 0,
    ;
    assert(q * rate == rate * q) by (nonlinear_arith);
}

} // verus!
