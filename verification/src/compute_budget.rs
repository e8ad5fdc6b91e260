use vstd::prelude::*;

verus! {

/// The smallest integer that is at least `n / d`, for `d > 0`.
pub open spec fn ceil_div(n: int, d: int) -> int {
    (n + d - 1) / d
}

/// Priority fee in lamports for a compute-unit limit and a price in
/// micro-lamports per compute unit, rounded up to a whole lamport.
pub open spec fn spec_priority_fee(limit: int, price: int) -> int {
    ceil_div(limit * price, 1_000_000)
}

/// `consumed` padded by `margin_percent` percent (rounded up), capped at `max_limit`.
pub open spec fn spec_with_margin(consumed: int, margin_percent: int, max_limit: int) -> int {
    let padded = consumed + ceil_div(consumed * margin_percent, 100);
    if padded > max_limit {
        max_limit
    } else {
        padded
    }
}

/// An instruction of a Solana program; opaque here, built and carried through.
#[verifier::external_type_specification]
#[verifier::external_body]
pub struct ExInstruction(solana_message::Instruction);

/// The `SetComputeUnitLimit` instruction for `units`, as
/// `ComputeBudgetInstruction::set_compute_unit_limit` builds it.
pub uninterp spec fn compute_unit_limit_instruction(units: u32) -> solana_message::Instruction;

/// The `SetComputeUnitPrice` instruction for `micro_lamports`, as
/// `ComputeBudgetInstruction::set_compute_unit_price` builds it.
pub uninterp spec fn compute_unit_price_instruction(micro_lamports: u64) -> solana_message::Instruction;

/// Calls `ComputeBudgetInstruction::set_compute_unit_limit` of
/// `solana_compute_budget_interface`, whose result depends on `units` alone
/// (the compute-budget program id, no accounts, and the data byte 2 followed
/// by `units` in little-endian); the result is named
/// `compute_unit_limit_instruction`.
#[verifier::external_body]
fn set_compute_unit_limit_instruction(units: u32) -> (instruction: solana_message::Instruction)
    ensures
        instruction == compute_unit_limit_instruction(units),
{
    solana_compute_budget_interface::ComputeBudgetInstruction::set_compute_unit_limit(units)
}

/// Calls `ComputeBudgetInstruction::set_compute_unit_price` of
/// `solana_compute_budget_interface`, whose result depends on
/// `micro_lamports` alone (the compute-budget program id, no accounts, and
/// the data byte 3 followed by `micro_lamports` in little-endian); the result
/// is named `compute_unit_price_instruction`.
#[verifier::external_body]
fn set_compute_unit_price_instruction(micro_lamports: u64) -> (instruction: solana_message::Instruction)
    ensures
        instruction == compute_unit_price_instruction(micro_lamports),
{
    solana_compute_budget_interface::ComputeBudgetInstruction::set_compute_unit_price(micro_lamports)
}

/// Requested compute-unit limit and price for a transaction.
#[derive(Debug, Clone, Copy, PartialEq, Eq, Structural)]
pub struct ComputeBudget {
    compute_unit_limit: u32,
    compute_unit_price_micro_lamports: u64,
}

impl ComputeBudget {
    /// The requested compute-unit limit.
    pub closed spec fn unit_limit(self) -> u32 {
        self.compute_unit_limit
    }

    /// The requested price per compute unit, in micro-lamports.
    pub closed spec fn unit_price(self) -> u64 {
        self.compute_unit_price_micro_lamports
    }

    pub fn new(compute_unit_limit: u32, compute_unit_price_micro_lamports: u64) -> (res: Self)
        ensures
            res.unit_limit() == compute_unit_limit,
            res.unit_price() == compute_unit_price_micro_lamports,
    {
        Self { compute_unit_limit, compute_unit_price_micro_lamports }
    }

    /// The priority fee, in lamports, of `compute_unit_limit` units at
    /// `compute_unit_price_micro_lamports` each, rounded up.
    pub fn priority_fee_lamports(compute_unit_limit: u32, compute_unit_price_micro_lamports: u64) -> (fee: u128)
        ensures
            fee == spec_priority_fee(compute_unit_limit as int, compute_unit_price_micro_lamports as int),
    {
        let limit = compute_unit_limit as u128;
        let price = compute_unit_price_micro_lamports as u128;
        proof {
            lemma_product_bound(limit as int, price as int);
        }
        let product = limit * price;
        (product + 999_999) / 1_000_000
    }

    /// `consumed` plus `margin_percent` percent of it (rounded up), never more than `max_limit`.
    pub fn with_margin(consumed: u32, margin_percent: u32, max_limit: u32) -> (limit: u32)
        ensures
            limit == spec_with_margin(consumed as int, margin_percent as int, max_limit as int),
    {
        let c = consumed as u64;
        let m = margin_percent as u64;
        proof {
            lemma_product_bound_u32(c as int, m as int);
        }
        let scaled = c * m;
        let res = c + (scaled + 99) / 100;
        if res > max_limit as u64 {
            return max_limit;
        }
        res as u32
    }

    /// The two compute-budget instructions for this budget: first the
    /// compute-unit limit, then the compute-unit price.
    pub fn to_instructions(&self) -> (instructions: [solana_message::Instruction; 2])
        ensures
            instructions[0] == compute_unit_limit_instruction(self.unit_limit()),
            instructions[1] == compute_unit_price_instruction(self.unit_price()),
    {
        [
            set_compute_unit_limit_instruction(self.compute_unit_limit),
            set_compute_unit_price_instruction(self.compute_unit_price_micro_lamports),
        ]
    }
}

/// Two budgets with the same limit and the same price are the same budget.
pub proof fn lemma_budget_equality(a: ComputeBudget, b: ComputeBudget)
    ensures
        (a.unit_limit() == b.unit_limit() && a.unit_price() == b.unit_price()) <==> a == b,
{
}

/// The priority fee is the exact cost `limit * price` micro-lamports rounded
/// up to whole lamports: it covers the cost, and one lamport less would not.
pub proof fn lemma_priority_fee_covers_cost(limit: u32, price: u64)
    ensures
        spec_priority_fee(limit as int, price as int) * 1_000_000 >= limit * price,
        (spec_priority_fee(limit as int, price as int) - 1) * 1_000_000 < limit * price,
{
    lemma_product_bound(limit as int, price as int);
    let p = limit * price;
    assert(((p + 999_999) / 1_000_000) * 1_000_000 >= p && ((p + 999_999) / 1_000_000 - 1) * 1_000_000 < p)
        by (nonlinear_arith)
        requires
            p >= 0,
    ;
}

/// A larger compute-unit limit or a higher unit price never lowers the
/// priority fee (rounding can make two different requests cost the same).
pub proof fn lemma_priority_fee_monotone(limit1: u32, limit2: u32, price1: u64, price2: u64)
    requires
        limit1 <= limit2,
        price1 <= price2,
    ensures
        spec_priority_fee(limit1 as int, price1 as int) <= spec_priority_fee(limit2 as int, price2 as int),
{
    let a = limit1 * price1;
    let b = limit2 * price2;
    assert(a <= b) by (nonlinear_arith)
        requires
            0 <= limit1 <= limit2,
            0 <= price1 <= price2,
            a == limit1 * price1,
            b == limit2 * price2,
    ;
    assert((a + 999_999) / 1_000_000 <= (b + 999_999) / 1_000_000) by (nonlinear_arith)
        requires
            0 <= a <= b,
    ;
}

/// A larger limit costs strictly more once the extra compute units at the
/// given price add up to at least one whole lamport (below that, rounding
/// may give both limits the same fee).
pub proof fn lemma_priority_fee_strictly_grows(limit1: u32, limit2: u32, price: u64)
    requires
        limit1 <= limit2,
        (limit2 - limit1) * price >= 1_000_000,
    ensures
        spec_priority_fee(limit1 as int, price as int) < spec_priority_fee(limit2 as int, price as int),
{
    let a = limit1 * price;
    let b = limit2 * price;
    assert(b - a == (limit2 - limit1) * price) by (nonlinear_arith)
        requires
            a == limit1 * price,
            b == limit2 * price,
    ;
    assert(a >= 0) by (nonlinear_arith)
        requires
            limit1 >= 0,
            price >= 0,
            a == limit1 * price,
    ;
    assert((a + 999_999) / 1_000_000 < (b + 999_999) / 1_000_000) by (nonlinear_arith)
        requires
            0 <= a,
            b - a >= 1_000_000,
    ;
}

/// The priority fee is zero exactly when the limit or the price is zero.
pub proof fn lemma_priority_fee_zero(limit: u32, price: u64)
    ensures
        spec_priority_fee(limit as int, price as int) == 0 <==> (limit == 0 || price == 0),
{
    let p = limit * price;
    assert(p == 0 <==> (limit == 0 || price == 0)) by (nonlinear_arith)
        requires
            limit >= 0,
            price >= 0,
            p == limit * price,
    ;
    assert(p >= 1 ==> (p + 999_999) / 1_000_000 >= 1) by (nonlinear_arith);
}

/// The padded limit never exceeds `max_limit`; unless capped there it is at
/// least `consumed`, and it covers `consumed` plus the full margin.
pub proof fn lemma_with_margin_bounds(consumed: u32, margin_percent: u32, max_limit: u32)
    ensures
        spec_with_margin(consumed as int, margin_percent as int, max_limit as int) <= max_limit,
        consumed <= max_limit ==> consumed <= spec_with_margin(
            consumed as int,
            margin_percent as int,
            max_limit as int,
        ),
        spec_with_margin(consumed as int, margin_percent as int, max_limit as int) == max_limit
            || spec_with_margin(consumed as int, margin_percent as int, max_limit as int) * 100
            >= consumed * (100 + margin_percent),
{
    let s = consumed * margin_percent;
    assert(s >= 0) by (nonlinear_arith)
        requires
            consumed >= 0,
            margin_percent >= 0,
            s == consumed * margin_percent,
    ;
    assert(((s + 99) / 100) * 100 >= s) by (nonlinear_arith)
        requires
            s >= 0,
    ;
    assert(consumed * (100 + margin_percent) == consumed * 100 + s) by (nonlinear_arith)
        requires
            s == consumed * margin_percent,
    ;
}

/// The padded limit is the least whole number of compute units that covers
/// `consumed` grown by `margin_percent` percent, unless that exceeds
/// `max_limit`, in which case it is `max_limit`: it never exceeds the cap,
/// never exceeds the rounded-up padding, and covers the padding whenever the
/// padding fits under the cap.
pub proof fn lemma_with_margin_is_least_cover(consumed: u32, margin_percent: u32, max_limit: u32)
    ensures
        spec_with_margin(consumed as int, margin_percent as int, max_limit as int) <= max_limit,
        spec_with_margin(consumed as int, margin_percent as int, max_limit as int) * 100 < consumed * (100
            + margin_percent) + 100,
        consumed * (100 + margin_percent) <= max_limit * 100 ==> spec_with_margin(
            consumed as int,
            margin_percent as int,
            max_limit as int,
        ) * 100 >= consumed * (100 + margin_percent),
        consumed * (100 + margin_percent) > max_limit * 100 ==> spec_with_margin(
            consumed as int,
            margin_percent as int,
            max_limit as int,
        ) == max_limit,
{
    let s = consumed * margin_percent;
    let x = consumed * (100 + margin_percent);
    assert(s >= 0) by (nonlinear_arith)
        requires
            consumed >= 0,
            margin_percent >= 0,
            s == consumed * margin_percent,
    ;
    assert(x == consumed * 100 + s) by (nonlinear_arith)
        requires
            s == consumed * margin_percent,
            x == consumed * (100 + margin_percent),
    ;
    let q = (s + 99) / 100;
    assert(q * 100 >= s && q * 100 <= s + 99) by (nonlinear_arith)
        requires
            s >= 0,
            q == (s + 99) / 100,
    ;
    let p = consumed + q;
    assert(p * 100 == consumed * 100 + q * 100);
    assert(p > max_limit ==> x > max_limit * 100);
}

/// More consumption never yields a smaller padded limit.
pub proof fn lemma_with_margin_monotone(consumed1: u32, consumed2: u32, margin_percent: u32, max_limit: u32)
    requires
        consumed1 <= consumed2,
    ensures
        spec_with_margin(consumed1 as int, margin_percent as int, max_limit as int) <= spec_with_margin(
            consumed2 as int,
            margin_percent as int,
            max_limit as int,
        ),
{
    let a = consumed1 * margin_percent;
    let b = consumed2 * margin_percent;
    assert(0 <= a <= b) by (nonlinear_arith)
        requires
            0 <= consumed1 <= consumed2,
            0 <= margin_percent,
            a == consumed1 * margin_percent,
            b == consumed2 * margin_percent,
    ;
    assert((a + 99) / 100 <= (b + 99) / 100) by (nonlinear_arith)
        requires
            0 <= a <= b,
    ;
}

/// Without a margin the consumption itself is requested, capped at `max_limit`.
pub proof fn lemma_with_margin_without_margin(consumed: u32, max_limit: u32)
    ensures
        spec_with_margin(consumed as int, 0, max_limit as int) == if consumed <= max_limit {
            consumed
        } else {
            max_limit
        },
{
    assert(consumed * 0 == 0) by (nonlinear_arith);
}

/// Nothing consumed means nothing requested, whatever the margin.
pub proof fn lemma_with_margin_zero_consumed(margin_percent: u32, max_limit: u32)
    ensures
        spec_with_margin(0, margin_percent as int, max_limit as int) == 0,
{
}

proof fn lemma_product_bound(a: int, b: int)
    requires
        0 <= a <= u32::MAX,
        0 <= b <= u64::MAX,
    ensures
        0 <= a * b <= u32::MAX * u64::MAX,
{
    assert(0 <= a * b <= u32::MAX * u64::MAX) by (nonlinear_arith)
        requires
            0 <= a <= u32::MAX,
            0 <= b <= u64::MAX,
    ;
}

proof fn lemma_product_bound_u32(a: int, b: int)
    requires
        0 <= a <= u32::MAX,
        0 <= b <= u32::MAX,
    ensures
        0 <= a * b <= u32::MAX * u32::MAX,
{
    assert(0 <= a * b <= u32::MAX * u32::MAX) by (nonlinear_arith)
        requires
            0 <= a <= u32::MAX,
            0 <= b <= u32::MAX,
    ;
}

} // verus!
