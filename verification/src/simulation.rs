use vstd::prelude::*;

verus! {

/// In a line of cars listed from the rear, the car ahead of the one at
/// `index`: the next in the list, and none for the front car.
pub open spec fn ahead_of<'a, C>(cars: &'a Vec<C>, index: int) -> Option<&'a C> {
    if index + 1 < cars.len() {
        Some(&cars@[index + 1])
    } else {
        None
    }
}

/// The car ahead of every car but the front one is the next in the list; the
/// front car has none.
pub proof fn lemma_car_ahead_is_the_next<C>(cars: &Vec<C>)
    ensures
        forall|i: int|
            0 <= i && i + 1 < cars.len() ==> #[trigger] ahead_of(cars, i) == Some(&cars@[i + 1]),
        cars.len() > 0 ==> ahead_of(cars, cars.len() - 1) == None::<&C>,
{
}

/// One tick of a line of cars listed from the rear: every car advances by
/// `tick`, given its state and the state of the car ahead of it, both as they
/// were before this tick. The result lists the new states in the same order.
pub fn tick_all<C, F: Fn(&C, Option<&C>) -> C>(cars: &Vec<C>, tick: F) -> (r: Vec<C>)
    requires
        forall|i: int| 0 <= i < cars.len() ==> tick.requires((&cars@[i], ahead_of(cars, i))),
    ensures
        r.len() == cars.len(),
        forall|i: int|
            0 <= i && i + 1 < cars.len() ==> tick.ensures(
                (&cars@[i], Some(&cars@[i + 1])),
                #[trigger] r@[i],
            ),
        cars.len() > 0 ==> tick.ensures((&cars@[cars.len() - 1], None), r@[cars.len() - 1]),
        forall|i: int|
            0 <= i < cars.len() ==> tick.ensures((&cars@[i], ahead_of(cars, i)), #[trigger] r@[i]),
{
    let n = cars.len();
    let mut out: Vec<C> = Vec::new();
    let mut i: usize = 0;
    while i < n
        invariant
            n == cars.len(),
            i <= n,
            out.len() == i,
            forall|k: int| 0 <= k < n ==> tick.requires((&cars@[k], ahead_of(cars, k))),
            forall|k: int|
                0 <= k < i ==> tick.ensures((&cars@[k], ahead_of(cars, k)), #[trigger] out@[k]),
        decreases n - i,
    {
        let ahead = if i + 1 < n {
            Some(&cars[i + 1])
        } else {
            None
        };
        assert(ahead == ahead_of(cars, i as int));
        assert(tick.requires((&cars@[i as int], ahead_of(cars, i as int))));
        let next = tick(&cars[i], ahead);
        out.push(next);
        i += 1;
    }
    out
}

} // verus!
