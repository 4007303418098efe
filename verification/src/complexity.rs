//! Growth functions by which running times are judged, with their inverses
//! on the values that are known.

use std::collections::HashMap;
use vstd::prelude::*;

verus! {

/// A growth function, known by its inverse on some values.
pub trait Function {
    /// The highest value at which an inverse is looked for.
    spec fn bound(&self) -> u32;

    /// The argument at which the function takes the value `y`, where one
    /// is known.
    spec fn inverse_at(&self, y: u32) -> Option<u32>;

    fn max_y(&self) -> (bound: u32)
        ensures
            bound == self.bound(),
    ;

    fn inverse(&self, y: u32) -> (x: Option<u32>)
        ensures
            x == self.inverse_at(y),
    ;

    /// The inverse at the first value from `y` upwards that has one. Some
    /// value from `y` up to the bound must have an inverse.
    fn closest_inverse(&self, y: &u32) -> (x: u32)
        requires
            exists|c: u32| *y <= c <= self.bound() && (#[trigger] self.inverse_at(c)) is Some,
        ensures
            exists|c: u32|
                {
                    &&& *y <= c <= self.bound()
                    &&& #[trigger] self.inverse_at(c) == Some(x)
                    &&& forall|d: u32| *y <= d < c ==> (#[trigger] self.inverse_at(d)) is None
                },
    {
        let mut corrected_y: u32 = *y;
        let max_y = self.max_y();
        loop
            invariant
                *y <= corrected_y <= max_y,
                max_y == self.bound(),
                exists|c: u32| *y <= c <= self.bound() && (#[trigger] self.inverse_at(c)) is Some,
                forall|d: u32| *y <= d < corrected_y ==> (#[trigger] self.inverse_at(d)) is None,
            decreases max_y - corrected_y,
        {
            if let Some(x) = self.inverse(corrected_y) {
                return x;
            }
            corrected_y += 1;
        }
    }
}

/// The pairs `(n, n log n)` that are known, by rising `n`.
pub open spec fn n_log_n_values() -> Seq<(u32, u32)> {
    seq![
        (10u32, 30u32),
        (20u32, 80u32),
        (30u32, 120u32),
        (40u32, 200u32),
        (50u32, 250u32),
        (60u32, 300u32),
        (70u32, 420u32),
        (80u32, 480u32),
        (90u32, 540u32),
        (100u32, 600u32),
        (110u32, 660u32),
        (120u32, 720u32),
        (130u32, 910u32),
        (140u32, 980u32),
        (150u32, 1050u32),
        (160u32, 1120u32),
        (170u32, 1190u32),
        (180u32, 1260u32),
        (190u32, 1330u32),
        (200u32, 1400u32),
        (210u32, 1470u32),
        (220u32, 1540u32),
        (230u32, 1610u32),
        (240u32, 1680u32),
        (250u32, 1750u32),
        (260u32, 2080u32),
        (270u32, 2160u32),
        (280u32, 2240u32),
        (290u32, 2320u32),
        (300u32, 2400u32),
        (310u32, 2480u32),
        (320u32, 2560u32),
        (330u32, 2640u32),
        (340u32, 2720u32),
        (350u32, 2800u32),
        (360u32, 2880u32),
        (370u32, 2960u32),
        (380u32, 3040u32),
        (390u32, 3120u32),
        (400u32, 3200u32),
    ]
}

/// The map from each second entry of the pairs to its first entry; of two
/// pairs with the same second entry the later one counts.
pub open spec fn inverted(pairs: Seq<(u32, u32)>) -> Map<u32, u32>
    decreases pairs.len(),
{
    if pairs.len() == 0 {
        Map::empty()
    } else {
        inverted(pairs.drop_last()).insert(pairs.last().1, pairs.last().0)
    }
}

fn n_log_n_table() -> (table: Vec<(u32, u32)>)
    ensures
        table@ == n_log_n_values(),
{
    let table = vec![
        (10u32, 30u32),
        (20u32, 80u32),
        (30u32, 120u32),
        (40u32, 200u32),
        (50u32, 250u32),
        (60u32, 300u32),
        (70u32, 420u32),
        (80u32, 480u32),
        (90u32, 540u32),
        (100u32, 600u32),
        (110u32, 660u32),
        (120u32, 720u32),
        (130u32, 910u32),
        (140u32, 980u32),
        (150u32, 1050u32),
        (160u32, 1120u32),
        (170u32, 1190u32),
        (180u32, 1260u32),
        (190u32, 1330u32),
        (200u32, 1400u32),
        (210u32, 1470u32),
        (220u32, 1540u32),
        (230u32, 1610u32),
        (240u32, 1680u32),
        (250u32, 1750u32),
        (260u32, 2080u32),
        (270u32, 2160u32),
        (280u32, 2240u32),
        (290u32, 2320u32),
        (300u32, 2400u32),
        (310u32, 2480u32),
        (320u32, 2560u32),
        (330u32, 2640u32),
        (340u32, 2720u32),
        (350u32, 2800u32),
        (360u32, 2880u32),
        (370u32, 2960u32),
        (380u32, 3040u32),
        (390u32, 3120u32),
        (400u32, 3200u32),
    ];
    assert(table@ =~= n_log_n_values());
    table
}

/// The function `n log n`, known on a table of values.
pub struct NLogN {
    map: HashMap<u32, u32>,
}

impl NLogN {
    /// The inverse that the function is made with: `n` for each known
    /// value of `n log n`.
    pub closed spec fn inverses(&self) -> Map<u32, u32> {
        self.map@
    }

    /// The function with the inverses of its table.
    pub fn init() -> (function: Self)
        ensures
            function.inverses() == inverted(n_log_n_values()),
    {
        let table = n_log_n_table();
        let mut map: HashMap<u32, u32> = HashMap::new();
        let mut i: usize = 0;
        assert(table@.take(0) =~= Seq::empty());
        while i < table.len()
            invariant
                i <= table.len(),
                map@ == inverted(table@.take(i as int)),
            decreases table.len() - i,
        {
            assert(table@.take(i + 1).drop_last() =~= table@.take(i as int));
            let (x, y) = table[i];
            map.insert(y, x);
            i += 1;
        }
        assert(table@.take(table.len() as int) =~= table@);
        NLogN { map }
    }
}

impl Function for NLogN {
    open spec fn bound(&self) -> u32 {
        40
    }

    open spec fn inverse_at(&self, y: u32) -> Option<u32> {
        if self.inverses().contains_key(y) {
            Some(self.inverses()[y])
        } else {
            None
        }
    }

    fn max_y(&self) -> (bound: u32) {
        40
    }

    fn inverse(&self, y: u32) -> (x: Option<u32>) {
        match self.map.get(&y) {
            Some(x) => Some(*x),
            None => None,
        }
    }
}

/// The identity.
pub struct N;

impl Function for N {
    open spec fn bound(&self) -> u32 {
        u32::MAX
    }

    open spec fn inverse_at(&self, y: u32) -> Option<u32> {
        Some(y)
    }

    fn max_y(&self) -> (bound: u32) {
        u32::MAX
    }

    fn inverse(&self, y: u32) -> (x: Option<u32>) {
        Some(y)
    }
}

} // verus!
