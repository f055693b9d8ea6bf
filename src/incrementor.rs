use vstd::prelude::*;

verus! {

/// Fixed-point scale of every amount of clicks: one whole click is this many units.
pub const UNIT: u64 = 1_000_000;

/// `a + b`, held at `u64::MAX` when the sum does not fit.
pub open spec fn sat_add(a: u64, b: u64) -> u64 {
    if a + b > u64::MAX {
        u64::MAX
    } else {
        (a + b) as u64
    }
}

/// `amount * percent / 100`, rounded down, held at `u64::MAX` when it does not fit.
pub open spec fn scaled(amount: u64, percent: u64) -> u64 {
    let x = amount as int * percent as int / 100;
    if x > u64::MAX {
        u64::MAX
    } else {
        x as u64
    }
}

/// Multiplies a fixed-point amount by a factor given in percent.
pub fn scale(amount: u64, percent: u64) -> (r: u64)
    ensures
        r == scaled(amount, percent),
{
    let a = amount as u128;
    let p = percent as u128;
    assert(a * p <= 0xffff_ffff_ffff_ffffu128 * 0xffff_ffff_ffff_ffffu128) by (nonlinear_arith)
        requires
            a <= 0xffff_ffff_ffff_ffffu128,
            p <= 0xffff_ffff_ffff_ffffu128,
    ;
    let x: u128 = a * p / 100;
    if x > u64::MAX as u128 {
        u64::MAX
    } else {
        x as u64
    }
}

/// A generator of clicks. Every amount is in fixed-point units of `UNIT`; every growth
/// factor is in percent.
#[derive(Clone, Copy, Debug)]
pub struct Incrementor {
    /// Display label.
    pub name: &'static str,
    /// Accumulated clicks that are not banked yet.
    pub clicks: u64,
    /// Threshold at which `clicks` is banked.
    pub max_clicks: u64,
    /// Clicks added by each tick while unlocked.
    pub increment_by: u64,
    /// Running total of what was banked beyond `max_clicks`.
    pub spare: u64,
    /// Running total of everything ever banked.
    pub total_earned: u64,
    /// Ticking does nothing while this is false.
    pub unlocked: bool,
    /// Current cost of an unlock or an upgrade.
    pub price: u64,
    /// Growth of `price` on each upgrade, in percent.
    pub price_mult: u64,
}

/// Growth of `increment_by` on each upgrade, in percent.
pub const RATE_GROWTH: u64 = 125;

/// Growth of `max_clicks` on each upgrade, in percent.
pub const CAPACITY_GROWTH: u64 = 122;

impl Incrementor {
    /// The economic constraints on an incrementor's parameters.
    pub open spec fn wf(&self) -> bool {
        &&& self.max_clicks > 0
        &&& self.increment_by > 0
        &&& self.price > 0
        &&& self.price_mult > 100
    }

    /// The incrementor after one tick.
    pub open spec fn ticked(self) -> Incrementor {
        if !self.unlocked {
            self
        } else {
            let c = sat_add(self.clicks, self.increment_by);
            if c >= self.max_clicks {
                Incrementor {
                    clicks: 0,
                    spare: sat_add(self.spare, (c - self.max_clicks) as u64),
                    total_earned: sat_add(self.total_earned, c),
                    ..self
                }
            } else {
                Incrementor { clicks: c, ..self }
            }
        }
    }

    /// What one tick banks: the whole accumulated amount once it reaches `max_clicks`, else 0.
    pub open spec fn banked(self) -> u64 {
        let c = sat_add(self.clicks, self.increment_by);
        if self.unlocked && c >= self.max_clicks {
            c
        } else {
            0
        }
    }

    /// The incrementor after `n` ticks.
    pub open spec fn ticked_n(self, n: nat) -> Incrementor
        decreases n,
    {
        if n == 0 {
            self
        } else {
            self.ticked().ticked_n((n - 1) as nat)
        }
    }

    /// Advances by one tick and returns the clicks banked into the global pool.
    pub fn tick(&mut self) -> (r: u64)
        ensures
            *final(self) == old(self).ticked(),
            r == old(self).banked(),
            !old(self).unlocked ==> *final(self) == *old(self) && r == 0,
            old(self).unlocked && old(self).max_clicks > 0 ==> final(self).clicks
                < final(self).max_clicks,
            final(self).total_earned >= old(self).total_earned,
    {
        if !self.unlocked {
            return 0;
        }
        self.clicks = self.clicks.saturating_add(self.increment_by);
        if self.clicks >= self.max_clicks {
            self.spare = self.spare.saturating_add(self.clicks - self.max_clicks);
            let c = self.clicks;
            self.clicks = 0;
            self.total_earned = self.total_earned.saturating_add(c);
            return c;
        }
        0
    }

    /// Marks the incrementor as unlocked; nothing else changes.
    pub fn unlock(&mut self)
        ensures
            *final(self) == (Incrementor { unlocked: true, ..*old(self) }),
    {
        self.unlocked = true;
    }

    /// The incrementor after one upgrade.
    pub open spec fn upgraded(self) -> Incrementor {
        Incrementor {
            increment_by: scaled(self.increment_by, RATE_GROWTH),
            max_clicks: scaled(self.max_clicks, CAPACITY_GROWTH),
            price: scaled(self.price, self.price_mult),
            ..self
        }
    }

    /// Grows the rate and the capacity, and raises the price by `price_mult`.
    pub fn upgrade(&mut self)
        requires
            old(self).unlocked,
        ensures
            *final(self) == old(self).upgraded(),
            old(self).wf() ==> final(self).wf(),
    {
        self.increment_by = scale(self.increment_by, RATE_GROWTH);
        self.max_clicks = scale(self.max_clicks, CAPACITY_GROWTH);
        self.price = scale(self.price, self.price_mult);
        proof {
            lemma_scaled_grows(old(self).increment_by, RATE_GROWTH);
            lemma_scaled_grows(old(self).max_clicks, CAPACITY_GROWTH);
            if old(self).wf() {
                lemma_scaled_grows(old(self).price, old(self).price_mult);
            }
        }
    }
}

impl Default for Incrementor {
    /// A locked starter incrementor: 0.002 clicks per tick, a capacity of one click, priced
    /// at one click with 40 percent growth.
    fn default() -> (r: Incrementor)
        ensures
            r.name@ == "Incrementor"@,
            !r.unlocked,
            r.increment_by == 2_000,
            r.max_clicks == UNIT,
            r.price == UNIT,
            r.price_mult == 140,
            r.clicks == 0,
            r.spare == 0,
            r.total_earned == 0,
            r.wf(),
    {
        Incrementor {
            name: "Incrementor",
            unlocked: false,
            increment_by: 2_000,
            max_clicks: UNIT,
            price: UNIT,
            price_mult: 140,
            clicks: 0,
            spare: 0,
            total_earned: 0,
        }
    }
}

/// A tick changes only the accumulated clicks and the running totals.
pub proof fn lemma_ticked_keeps_parameters(inc: Incrementor)
    ensures
        inc.ticked().unlocked == inc.unlocked,
        inc.ticked().max_clicks == inc.max_clicks,
        inc.ticked().increment_by == inc.increment_by,
        inc.ticked().price == inc.price,
        inc.ticked().price_mult == inc.price_mult,
        inc.ticked().name == inc.name,
{
}

/// Once an unlocked incrementor with a positive capacity has ticked at least once, its
/// accumulated clicks stay strictly below its capacity, however many ticks follow.
pub proof fn lemma_ticks_keep_clicks_below_capacity(inc: Incrementor, n: nat)
    requires
        inc.unlocked,
        inc.max_clicks > 0,
        n >= 1,
    ensures
        inc.ticked_n(n).clicks < inc.ticked_n(n).max_clicks,
    decreases n,
{
    if n > 1 {
        lemma_ticks_keep_clicks_below_capacity(inc.ticked(), (n - 1) as nat);
    } else {
        assert(inc.ticked_n(1) == inc.ticked().ticked_n(0));
    }
}

/// An incrementor's lifetime earnings never decrease, however many ticks it takes.
pub proof fn lemma_ticks_keep_earnings(inc: Incrementor, n: nat)
    ensures
        inc.ticked_n(n).total_earned >= inc.total_earned,
    decreases n,
{
    if n > 0 {
        lemma_ticks_keep_earnings(inc.ticked(), (n - 1) as nat);
    }
}

/// A factor of at least 100 percent never shrinks an amount.
pub proof fn lemma_scaled_grows(amount: u64, percent: u64)
    requires
        percent >= 100,
    ensures
        scaled(amount, percent) >= amount,
{
    assert(amount as int * percent as int >= amount as int * 100) by (nonlinear_arith)
        requires
            percent >= 100,
    ;
}

} // verus!
