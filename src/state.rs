//! The records the engine works on: one bank per asset and one position per user.
use vstd::prelude::*;

verus! {

/// Basis points: the fixed-point base of the liquidation close factor and the
/// liquidation bonus (10_000 stands for one whole).
pub const BPS: u64 = 10_000;

/// Fixed-point base of a bank's interest rate: a rate of `RATE_SCALE` is
/// 100% per second.
pub const RATE_SCALE: u64 = 1_000_000_000;

/// The two assets of the pool.
#[derive(Clone, Copy, Debug, PartialEq, Eq, Structural)]
pub enum TokenType {
    USDC,
    SOL,
}

impl TokenType {
    pub open spec fn counterpart(self) -> TokenType {
        match self {
            TokenType::USDC => TokenType::SOL,
            TokenType::SOL => TokenType::USDC,
        }
    }

    /// The other asset: the collateral that backs a loan in this one.
    pub fn other(self) -> (r: TokenType)
        ensures
            r == self.counterpart(),
    {
        match self {
            TokenType::USDC => TokenType::SOL,
            TokenType::SOL => TokenType::USDC,
        }
    }
}

/// A position's stake in one asset: principal amounts and the pool shares
/// that back them.
#[derive(Clone, Copy, Debug, PartialEq, Eq, Structural)]
pub struct Holding {
    pub deposited: u64,
    pub deposited_shares: u64,
    pub borrowed: u64,
    pub borrowed_shares: u64,
}

impl Holding {
    pub fn empty() -> (r: Holding)
        ensures
            r == (Holding { deposited: 0, deposited_shares: 0, borrowed: 0, borrowed_shares: 0 }),
    {
        Holding { deposited: 0, deposited_shares: 0, borrowed: 0, borrowed_shares: 0 }
    }
}

/// A user's position across both assets.
#[derive(Clone, Copy, Debug, PartialEq, Eq, Structural)]
pub struct User {
    pub sol: Holding,
    pub usdc: Holding,
    /// When interest was last applied to this position.
    pub last_updated: i64,
}

impl User {
    pub open spec fn held(self, t: TokenType) -> Holding {
        match t {
            TokenType::SOL => self.sol,
            TokenType::USDC => self.usdc,
        }
    }

    pub open spec fn with_held(self, t: TokenType, h: Holding, now: i64) -> User {
        match t {
            TokenType::SOL => User { sol: h, usdc: self.usdc, last_updated: now },
            TokenType::USDC => User { sol: self.sol, usdc: h, last_updated: now },
        }
    }

    /// The holding in asset `t`.
    pub fn holding(&self, t: TokenType) -> (r: Holding)
        ensures
            r == self.held(t),
    {
        match t {
            TokenType::SOL => self.sol,
            TokenType::USDC => self.usdc,
        }
    }

    /// Replaces the holding in asset `t` and stamps the position with `now`.
    pub fn set_holding(&mut self, t: TokenType, h: Holding, now: i64)
        ensures
            *final(self) == old(self).with_held(t, h, now),
    {
        match t {
            TokenType::SOL => self.sol = h,
            TokenType::USDC => self.usdc = h,
        }
        self.last_updated = now;
    }
}

/// The pool of one asset: aggregate deposits and borrows, the shares issued
/// against them, and the policy fixed when the bank was created.
#[derive(Clone, Copy, Debug, PartialEq, Eq, Structural)]
pub struct Bank {
    pub total_deposits: u64,
    pub total_deposits_shares: u64,
    pub total_borrows: u64,
    pub total_borrows_shares: u64,
    /// Multiplier applied to raw collateral value to get the borrowing cap
    /// and the health of a position (no fixed-point base: 1 means the full value).
    pub liquidation_threshold: u64,
    /// Bonus paid to a liquidator on top of the repaid amount, in basis points.
    pub liquidation_bonus: u64,
    /// Share of a debt that one liquidation may repay, in basis points.
    pub liquidation_close_factor: u64,
    pub max_ltv: u64,
    /// Continuous-compounding rate per second, over `RATE_SCALE`.
    pub interest_rate: u64,
    /// When interest was last applied to the deposit side. Each side keeps
    /// its own clock because an operation brings forward only the side it
    /// touches.
    pub deposits_last_updated: i64,
    /// When interest was last applied to the borrow side.
    pub borrows_last_updated: i64,
}

impl Bank {
    /// A side of the pool holds shares exactly when it holds tokens.
    pub open spec fn wf(self) -> bool {
        &&& (self.total_deposits_shares == 0 <==> self.total_deposits == 0)
        &&& (self.total_borrows_shares == 0 <==> self.total_borrows == 0)
    }
}

/// A price from the oracle, with the time it was published.
#[derive(Clone, Copy, Debug, PartialEq, Eq, Structural)]
pub struct PriceQuote {
    pub value: u64,
    pub as_of: i64,
}

/// The latest quote of each asset and how old a quote may be.
#[derive(Clone, Copy, Debug, PartialEq, Eq, Structural)]
pub struct Prices {
    pub sol: PriceQuote,
    pub usdc: PriceQuote,
    pub max_age: u64,
}

impl Prices {
    pub open spec fn quote(self, t: TokenType) -> PriceQuote {
        match t {
            TokenType::SOL => self.sol,
            TokenType::USDC => self.usdc,
        }
    }

    /// A quote is fresh when it was published no more than `max_age`
    /// seconds before `now`.
    pub open spec fn fresh(self, t: TokenType, now: i64) -> bool {
        now <= self.quote(t).as_of + self.max_age
    }

    pub fn quote_of(&self, t: TokenType) -> (r: PriceQuote)
        ensures
            r == self.quote(t),
    {
        match t {
            TokenType::SOL => self.sol,
            TokenType::USDC => self.usdc,
        }
    }

    pub fn is_fresh(&self, t: TokenType, now: i64) -> (r: bool)
        ensures
            r == self.fresh(t, now),
    {
        let q = self.quote_of(t);
        (now as i128) <= (q.as_of as i128) + (self.max_age as i128)
    }
}

/// Creates a bank with empty pools and the given policy.
pub fn process_initialize_bank(
    liquidation_threshold: u64,
    max_ltv: u64,
    liquidation_bonus: u64,
    liquidation_close_factor: u64,
    interest_rate: u64,
    now: i64,
) -> (r: Bank)
    ensures
        r == (Bank {
            total_deposits: 0,
            total_deposits_shares: 0,
            total_borrows: 0,
            total_borrows_shares: 0,
            liquidation_threshold,
            liquidation_bonus,
            liquidation_close_factor,
            max_ltv,
            interest_rate,
            deposits_last_updated: now,
            borrows_last_updated: now,
        }),
        r.wf(),
{
    Bank {
        total_deposits: 0,
        total_deposits_shares: 0,
        total_borrows: 0,
        total_borrows_shares: 0,
        liquidation_threshold,
        liquidation_bonus,
        liquidation_close_factor,
        max_ltv,
        interest_rate,
        deposits_last_updated: now,
        borrows_last_updated: now,
    }
}

/// Creates an empty position.
pub fn process_initialize_account(now: i64) -> (r: User)
    ensures
        r.sol == (Holding { deposited: 0, deposited_shares: 0, borrowed: 0, borrowed_shares: 0 }),
        r.usdc == (Holding { deposited: 0, deposited_shares: 0, borrowed: 0, borrowed_shares: 0 }),
        r.last_updated == now,
{
    User { sol: Holding::empty(), usdc: Holding::empty(), last_updated: now }
}

} // verus!
