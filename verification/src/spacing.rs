//! The spacing distributor: given a main-axis alignment policy, an amount of
//! extra space and a child count `n`, it yields the `n + 1` gap amounts that
//! go before, between and after the children.
//!
//! Amounts are rounded to whole pixels with a carried remainder, so the gaps
//! always sum to exactly the extra space ([`lemma_distribute_sum`]).

use vstd::prelude::*;

use crate::alignment::MainAxisAlignment;
use crate::geom::LIMIT;
use crate::rounding::{
    lemma_round_lower, lemma_round_magnitude, lemma_round_near, round_away, round_away_s,
};

verus! {

/// Denominator of the equal share a policy divides the extra space by.
pub open spec fn spacing_den(a: MainAxisAlignment, n: nat) -> int {
    if n == 0 {
        1
    } else {
        match a {
            MainAxisAlignment::Center => 2,
            MainAxisAlignment::SpaceBetween => if n >= 2 {
                n - 1
            } else {
                1
            },
            MainAxisAlignment::SpaceEvenly => n + 1 as int,
            MainAxisAlignment::SpaceAround => 2 * (n as int),
            _ => 1,
        }
    }
}

/// Numerator of the equal share: the whole extra space for the policies that
/// divide it, zero for `Start` and `End`, which place it in one gap directly.
pub open spec fn spacing_num(a: MainAxisAlignment, extra: int, n: nat) -> int {
    if n == 0 {
        0
    } else {
        match a {
            MainAxisAlignment::Center
            | MainAxisAlignment::SpaceBetween
            | MainAxisAlignment::SpaceEvenly
            | MainAxisAlignment::SpaceAround => extra,
            _ => 0,
        }
    }
}

/// How many rounded shares make up the gap at position `i` (`0 <= i <= n`).
pub open spec fn spacing_calls(a: MainAxisAlignment, n: nat, i: nat) -> nat {
    if n == 0 {
        0
    } else {
        match a {
            MainAxisAlignment::Start | MainAxisAlignment::End => 0,
            MainAxisAlignment::Center => if i == 0 || i == n {
                1
            } else {
                0
            },
            MainAxisAlignment::SpaceBetween => if i == 0 {
                0
            } else if i != n {
                1
            } else if n == 1 {
                1
            } else {
                0
            },
            MainAxisAlignment::SpaceEvenly => 1,
            MainAxisAlignment::SpaceAround => if i == 0 || i == n {
                1
            } else {
                2
            },
        }
    }
}

/// One rounded share: the emitted amount and the remainder carried onward.
pub open spec fn carry_emit(num: int, den: int, rem: int) -> (int, int) {
    let e = round_away_s(num + rem, den);
    (e, num + rem - e * den)
}

/// The gap emitted at position `i` with remainder `rem` carried in, and the
/// remainder carried out.
pub open spec fn spacing_emit(a: MainAxisAlignment, extra: int, n: nat, i: nat, rem: int) -> (
    int,
    int,
) {
    if n == 0 {
        (extra, rem)
    } else {
        let num = spacing_num(a, extra, n);
        let den = spacing_den(a, n);
        let c = spacing_calls(a, n, i);
        if c == 0 {
            let v = match a {
                MainAxisAlignment::Start => if i == n {
                    extra
                } else {
                    0
                },
                MainAxisAlignment::End => if i == 0 {
                    extra
                } else {
                    0
                },
                _ => 0,
            };
            (v, rem)
        } else if c == 1 {
            carry_emit(num, den, rem)
        } else {
            let first = carry_emit(num, den, rem);
            let second = carry_emit(num, den, first.1);
            (first.0 + second.0, second.1)
        }
    }
}

/// The remainder carried into position `i`.
pub open spec fn spacing_rem(a: MainAxisAlignment, extra: int, n: nat, i: nat) -> int
    decreases i,
{
    if i == 0 {
        0
    } else {
        spacing_emit(a, extra, n, (i - 1) as nat, spacing_rem(a, extra, n, (i - 1) as nat)).1
    }
}

/// The gap emitted at position `i`.
pub open spec fn spacing_value(a: MainAxisAlignment, extra: int, n: nat, i: nat) -> int {
    spacing_emit(a, extra, n, i, spacing_rem(a, extra, n, i)).0
}

/// The whole emitted sequence: `n + 1` gaps.
pub open spec fn distribute(a: MainAxisAlignment, extra: int, n: nat) -> Seq<int> {
    Seq::new(n + 1, |i: int| spacing_value(a, extra, n, i as nat))
}

/// The sum of a sequence of amounts.
pub open spec fn seq_sum(s: Seq<int>) -> int
    decreases s.len(),
{
    if s.len() == 0 {
        0
    } else {
        seq_sum(s.drop_last()) + s.last()
    }
}

/// Shares made up to position `i` (exclusive).
pub open spec fn spacing_ncalls(a: MainAxisAlignment, n: nat, i: nat) -> int
    decreases i,
{
    if i == 0 {
        0
    } else {
        spacing_ncalls(a, n, (i - 1) as nat) + spacing_calls(a, n, (i - 1) as nat)
    }
}

/// A policy whose gaps are rounded shares of the extra space.
pub open spec fn is_share_policy(a: MainAxisAlignment) -> bool {
    match a {
        MainAxisAlignment::Center
        | MainAxisAlignment::SpaceBetween
        | MainAxisAlignment::SpaceEvenly
        | MainAxisAlignment::SpaceAround => true,
        _ => false,
    }
}

proof fn lemma_ncalls_closed(a: MainAxisAlignment, n: nat, i: nat)
    requires
        n >= 1,
        i <= n + 1,
        is_share_policy(a),
    ensures
        spacing_ncalls(a, n, i) == (match a {
            MainAxisAlignment::Center => if i == 0 {
                0int
            } else if i <= n {
                1int
            } else {
                2int
            },
            MainAxisAlignment::SpaceEvenly => i as int,
            MainAxisAlignment::SpaceBetween => if i == 0 {
                0int
            } else if n == 1 {
                if i >= 2 {
                    1int
                } else {
                    0int
                }
            } else if i <= n {
                i - 1
            } else {
                n - 1
            },
            MainAxisAlignment::SpaceAround => if i == 0 {
                0int
            } else if i <= n {
                2 * i - 1
            } else {
                2 * n as int
            },
            _ => 0int,
        }),
    decreases i,
{
    if i > 0 {
        lemma_ncalls_closed(a, n, (i - 1) as nat);
    }
}

proof fn lemma_take_step(s: Seq<int>, i: int)
    requires
        0 <= i < s.len(),
    ensures
        seq_sum(s.take(i + 1)) == seq_sum(s.take(i)) + s[i],
{
    assert(s.take(i + 1).drop_last() =~= s.take(i));
    assert(s.take(i + 1).last() == s[i]);
}

/// For the share policies: the partial sums, remainder, and share count stay
/// in step, and the carried remainder never exceeds half a share unit.
proof fn lemma_spacing_invariant(a: MainAxisAlignment, extra: int, n: nat, i: nat)
    requires
        n >= 1,
        i <= n + 1,
        is_share_policy(a),
    ensures
        seq_sum(distribute(a, extra, n).take(i as int)) * spacing_den(a, n) + spacing_rem(
            a,
            extra,
            n,
            i,
        ) == spacing_ncalls(a, n, i) * spacing_num(a, extra, n),
        -spacing_den(a, n) <= 2 * spacing_rem(a, extra, n, i) <= spacing_den(a, n),
    decreases i,
{
    let den = spacing_den(a, n);
    let num = spacing_num(a, extra, n);
    let s = distribute(a, extra, n);
    assert(den >= 1);
    if i == 0 {
        assert(s.take(0) =~= Seq::<int>::empty());
    } else {
        let j = (i - 1) as nat;
        lemma_spacing_invariant(a, extra, n, j);
        let rem_j = spacing_rem(a, extra, n, j);
        let sum_j = seq_sum(s.take(j as int));
        let c = spacing_calls(a, n, j);
        let v = spacing_value(a, extra, n, j);
        let rem_i = spacing_rem(a, extra, n, i);
        assert(s[j as int] == v);
        lemma_take_step(s, j as int);
        if c == 0 {
            assert(v == 0 && rem_i == rem_j);
            assert((sum_j + 0) * den == sum_j * den) by (nonlinear_arith);
        } else if c == 1 {
            let e = round_away_s(num + rem_j, den);
            lemma_round_near(num + rem_j, den);
            assert(v == e && rem_i == num + rem_j - e * den);
            assert((sum_j + e) * den + (num + rem_j - e * den) == sum_j * den + rem_j + num)
                by (nonlinear_arith);
            assert(spacing_ncalls(a, n, i) == spacing_ncalls(a, n, j) + 1);
            assert((spacing_ncalls(a, n, j) + 1) * num == spacing_ncalls(a, n, j) * num + num)
                by (nonlinear_arith);
        } else {
            let e1 = round_away_s(num + rem_j, den);
            let r1 = num + rem_j - e1 * den;
            let e2 = round_away_s(num + r1, den);
            lemma_round_near(num + rem_j, den);
            lemma_round_near(num + r1, den);
            assert(v == e1 + e2 && rem_i == num + r1 - e2 * den);
            assert((sum_j + e1 + e2) * den + (num + r1 - e2 * den) == sum_j * den + rem_j + 2 * num)
                by (nonlinear_arith)
                requires
                    r1 == num + rem_j - e1 * den,
            ;
            assert(spacing_ncalls(a, n, i) == spacing_ncalls(a, n, j) + 2);
            assert((spacing_ncalls(a, n, j) + 2) * num == spacing_ncalls(a, n, j) * num + 2 * num)
                by (nonlinear_arith);
        }
    }
}

/// Without share rounding (`Start`, `End`, or no children) the remainder
/// stays zero.
proof fn lemma_spacing_rem_zero(a: MainAxisAlignment, extra: int, n: nat, i: nat)
    requires
        !is_share_policy(a) || n == 0,
    ensures
        spacing_rem(a, extra, n, i) == 0,
    decreases i,
{
    if i > 0 {
        lemma_spacing_rem_zero(a, extra, n, (i - 1) as nat);
    }
}

/// The carried remainder never exceeds half a share unit.
pub proof fn lemma_spacing_rem_bound(a: MainAxisAlignment, extra: int, n: nat, i: nat)
    requires
        i <= n + 1,
    ensures
        -spacing_den(a, n) <= 2 * spacing_rem(a, extra, n, i) <= spacing_den(a, n),
{
    if is_share_policy(a) && n >= 1 {
        lemma_spacing_invariant(a, extra, n, i);
    } else {
        lemma_spacing_rem_zero(a, extra, n, i);
    }
}

proof fn lemma_start_end_sum(a: MainAxisAlignment, extra: int, n: nat, i: nat)
    requires
        n >= 1,
        i <= n + 1,
        a == MainAxisAlignment::Start || a == MainAxisAlignment::End,
    ensures
        seq_sum(distribute(a, extra, n).take(i as int)) == (match a {
            MainAxisAlignment::Start => if i == n + 1 {
                extra
            } else {
                0int
            },
            _ => if i >= 1 {
                extra
            } else {
                0int
            },
        }),
    decreases i,
{
    let s = distribute(a, extra, n);
    if i == 0 {
        assert(s.take(0) =~= Seq::<int>::empty());
    } else {
        let j = (i - 1) as nat;
        lemma_start_end_sum(a, extra, n, j);
        lemma_take_step(s, j as int);
    }
}

/// The emitted gaps sum to exactly the extra space, for every policy, every
/// integer amount of extra space, and every child count.
pub proof fn lemma_distribute_sum(a: MainAxisAlignment, extra: int, n: nat)
    ensures
        seq_sum(distribute(a, extra, n)) == extra,
{
    let s = distribute(a, extra, n);
    assert(s.len() == n + 1);
    if n == 0 {
        assert(s.drop_last() =~= Seq::<int>::empty());
        assert(seq_sum(Seq::<int>::empty()) == 0);
        assert(seq_sum(s) == seq_sum(s.drop_last()) + s.last());
        assert(s.last() == spacing_value(a, extra, 0, 0));
    } else if is_share_policy(a) {
        let den = spacing_den(a, n);
        let num = spacing_num(a, extra, n);
        lemma_spacing_invariant(a, extra, n, n + 1);
        lemma_ncalls_closed(a, n, n + 1);
        assert(spacing_ncalls(a, n, n + 1) == den);
        assert(s.take(n + 1 as int) =~= s);
        let total = seq_sum(s);
        let rem_f = spacing_rem(a, extra, n, n + 1);
        assert(total * den + rem_f == den * num);
        assert(num == extra);
        assert(total == extra) by (nonlinear_arith)
            requires
                den >= 1,
                total * den + rem_f == den * extra,
                -den <= 2 * rem_f <= den,
        ;
    } else {
        lemma_start_end_sum(a, extra, n, n + 1);
        assert(s.take(n + 1 as int) =~= s);
    }
}

/// With no extra space every gap is zero.
proof fn lemma_spacing_zero(a: MainAxisAlignment, n: nat, i: nat)
    ensures
        spacing_rem(a, 0, n, i) == 0,
        spacing_value(a, 0, n, i) == 0,
    decreases i,
{
    if i > 0 {
        lemma_spacing_zero(a, n, (i - 1) as nat);
    }
    assert(round_away_s(0, spacing_den(a, n)) == 0) by {
        let den = spacing_den(a, n);
        assert(den >= 1);
        assert((0 + den) / (2 * den) == 0) by (nonlinear_arith)
            requires
                den >= 1,
        ;
    }
}

/// Every gap is non-negative and at most `2 * extra + 2` when the extra space
/// is non-negative.
pub proof fn lemma_spacing_value_bounds(a: MainAxisAlignment, extra: int, n: nat, i: nat)
    requires
        extra >= 0,
        i <= n,
    ensures
        0 <= spacing_value(a, extra, n, i) <= 2 * extra + 2,
{
    if extra == 0 {
        lemma_spacing_zero(a, n, i);
    } else if n == 0 || !is_share_policy(a) {
        lemma_spacing_rem_zero(a, extra, n, i);
    } else {
        let den = spacing_den(a, n);
        let num = spacing_num(a, extra, n);
        let rem = spacing_rem(a, extra, n, i);
        lemma_spacing_invariant(a, extra, n, i);
        let c = spacing_calls(a, n, i);
        if c >= 1 {
            let e1 = round_away_s(num + rem, den);
            let r1 = num + rem - e1 * den;
            lemma_round_near(num + rem, den);
            lemma_round_lower(num + rem, den);
            assert(2 * (num + rem) > -den);
            assert(e1 >= 0);
            assert(e1 <= extra + 1) by (nonlinear_arith)
                requires
                    den >= 1,
                    num == extra,
                    extra >= 1,
                    -den <= 2 * (num + rem - e1 * den) <= den,
                    -den <= 2 * rem <= den,
            ;
            if c == 2 {
                let e2 = round_away_s(num + r1, den);
                lemma_round_near(num + r1, den);
                lemma_round_lower(num + r1, den);
                assert(2 * (num + r1) > -den);
                assert(e2 >= 0);
                assert(e2 <= extra + 1) by (nonlinear_arith)
                    requires
                        den >= 1,
                        num == extra,
                        extra >= 1,
                        -den <= 2 * (num + r1 - e2 * den) <= den,
                        -den <= 2 * r1 <= den,
                ;
            }
        }
    }
}

/// The stateful gap generator over one distribution run.
///
/// [`Spacing::next`] yields `n_children + 1` gaps in order; the carried
/// remainder lives only inside one run of the generator.
pub struct Spacing {
    pub alignment: MainAxisAlignment,
    pub extra: i64,
    pub n_children: usize,
    pub index: usize,
    pub num: i64,
    pub den: i64,
    pub rem: i64,
}

impl Spacing {
    /// The generator is at position `index` of the run it was created for.
    pub open spec fn wf(self) -> bool {
        &&& 0 <= self.extra <= 0x1_0000_0000_0000
        &&& self.n_children <= LIMIT
        &&& self.index <= self.n_children + 1
        &&& self.num == spacing_num(self.alignment, self.extra as int, self.n_children as nat)
        &&& self.den == spacing_den(self.alignment, self.n_children as nat)
        &&& self.rem == spacing_rem(
            self.alignment,
            self.extra as int,
            self.n_children as nat,
            self.index as nat,
        )
    }

    /// Given the provided extra space and children count,
    /// this returns a generator of `i64` spacing,
    /// where the first element is the spacing before any children
    /// and all subsequent elements are the spacing after children.
    pub fn new(alignment: MainAxisAlignment, extra: i64, n_children: usize) -> (r: Self)
        requires
            0 <= extra <= 0x1_0000_0000_0000,
            n_children <= LIMIT,
        ensures
            r.wf(),
            r.alignment == alignment,
            r.extra == extra,
            r.n_children == n_children,
            r.index == 0,
    {
        let num: i64 = if n_children > 0 {
            match alignment {
                MainAxisAlignment::Center
                | MainAxisAlignment::SpaceBetween
                | MainAxisAlignment::SpaceEvenly
                | MainAxisAlignment::SpaceAround => extra,
                _ => 0,
            }
        } else {
            0
        };
        let den: i64 = if n_children == 0 {
            1
        } else {
            match alignment {
                MainAxisAlignment::Center => 2,
                MainAxisAlignment::SpaceBetween => if n_children >= 2 {
                    (n_children - 1) as i64
                } else {
                    1
                },
                MainAxisAlignment::SpaceEvenly => (n_children + 1) as i64,
                MainAxisAlignment::SpaceAround => 2 * (n_children as i64),
                _ => 1,
            }
        };
        Spacing { alignment, extra, n_children, index: 0, num, den, rem: 0 }
    }

    /// One rounded share, with the remainder carried to the next share.
    fn next_space(&mut self) -> (r: i64)
        requires
            0 <= old(self).num <= 0x1_0000_0000_0000,
            1 <= old(self).den <= 2 * LIMIT + 2,
            -old(self).den <= 2 * old(self).rem <= old(self).den,
        ensures
            ({
                let p = carry_emit(
                    old(self).num as int,
                    old(self).den as int,
                    old(self).rem as int,
                );
                r == p.0 && final(self).rem == p.1
            }),
            final(self).alignment == old(self).alignment,
            final(self).extra == old(self).extra,
            final(self).n_children == old(self).n_children,
            final(self).index == old(self).index,
            final(self).num == old(self).num,
            final(self).den == old(self).den,
    {
        let desired: i64 = self.num + self.rem;
        let actual: i64 = round_away(desired, self.den);
        proof {
            lemma_round_near(desired as int, self.den as int);
        }
        self.rem = desired - actual * self.den;
        actual
    }

    /// The next gap, or `None` when the run is over.
    pub fn next(&mut self) -> (r: Option<i64>)
        requires
            old(self).wf(),
        ensures
            final(self).wf(),
            old(self).index > old(self).n_children ==> r == None::<i64> && *final(self) == *old(
                self,
            ),
            old(self).index <= old(self).n_children ==> {
                &&& r == Some(
                    spacing_value(
                        old(self).alignment,
                        old(self).extra as int,
                        old(self).n_children as nat,
                        old(self).index as nat,
                    ) as i64,
                )
                &&& spacing_value(
                    old(self).alignment,
                    old(self).extra as int,
                    old(self).n_children as nat,
                    old(self).index as nat,
                ) == r.unwrap() as int
                &&& final(self).index == old(self).index + 1
                &&& final(self).alignment == old(self).alignment
                &&& final(self).extra == old(self).extra
                &&& final(self).n_children == old(self).n_children
            },
    {
        if self.index > self.n_children {
            return None;
        }
        proof {
            lemma_spacing_value_bounds(
                self.alignment,
                self.extra as int,
                self.n_children as nat,
                self.index as nat,
            );
            lemma_spacing_rem_bound(
                self.alignment,
                self.extra as int,
                self.n_children as nat,
                self.index as nat,
            );
        }
        let result: i64 = if self.n_children == 0 {
            self.extra
        } else {
            match self.alignment {
                MainAxisAlignment::Start => if self.index == self.n_children {
                    self.extra
                } else {
                    0
                },
                MainAxisAlignment::End => if self.index == 0 {
                    self.extra
                } else {
                    0
                },
                MainAxisAlignment::Center => {
                    if self.index == 0 || self.index == self.n_children {
                        self.next_space()
                    } else {
                        0
                    }
                },
                MainAxisAlignment::SpaceBetween => {
                    if self.index == 0 {
                        0
                    } else if self.index != self.n_children {
                        self.next_space()
                    } else if self.n_children == 1 {
                        self.next_space()
                    } else {
                        0
                    }
                },
                MainAxisAlignment::SpaceEvenly => self.next_space(),
                MainAxisAlignment::SpaceAround => {
                    if self.index == 0 || self.index == self.n_children {
                        self.next_space()
                    } else {
                        let ghost pre = *self;
                        let first: i64 = self.next_space();
                        proof {
                            lemma_round_near(pre.num + pre.rem, pre.den as int);
                            lemma_round_magnitude(pre.num + pre.rem, pre.den as int);
                        }
                        let ghost mid = *self;
                        let second: i64 = self.next_space();
                        proof {
                            lemma_round_near(mid.num + mid.rem, mid.den as int);
                            lemma_round_magnitude(mid.num + mid.rem, mid.den as int);
                        }
                        first + second
                    }
                },
            }
        };
        self.index = self.index + 1;
        Some(result)
    }

    /// All remaining gaps, in order.
    pub fn into_vec(self) -> (r: Vec<i64>)
        requires
            self.wf(),
            self.index == 0,
        ensures
            r@.len() == self.n_children + 1,
            forall|i: int|
                0 <= i < r@.len() ==> r@[i] == spacing_value(
                    self.alignment,
                    self.extra as int,
                    self.n_children as nat,
                    i as nat,
                ) as i64,
    {
        let mut gen = self;
        let mut out: Vec<i64> = Vec::new();
        loop
            invariant
                gen.wf(),
                gen.alignment == self.alignment,
                gen.extra == self.extra,
                gen.n_children == self.n_children,
                gen.index == out@.len(),
                gen.index <= gen.n_children + 1,
                forall|i: int|
                    0 <= i < out@.len() ==> out@[i] == spacing_value(
                        self.alignment,
                        self.extra as int,
                        self.n_children as nat,
                        i as nat,
                    ) as i64,
            decreases gen.n_children + 2 - gen.index,
        {
            match gen.next() {
                Some(v) => out.push(v),
                None => {
                    return out;
                },
            }
        }
    }
}

} // verus!
