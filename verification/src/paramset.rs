//! Named parameter lists, as handed to constructors at scene-load time.
//!
//! Each channel is a list of named items; adding an item replaces every
//! earlier item of the same name, and a lookup returns the first value
//! recorded under a name, falling back to a caller-supplied default.  The
//! integer channel is what the integrator reads its recursion depth from;
//! floating-point channels belong to the unverified shell around the library.

use vstd::prelude::*;

verus! {

/// One named parameter: a name and the values recorded under it.
pub struct ParamSetItem<T> {
    pub name: String,
    pub data: Vec<T>,
    pub looked_up: bool,
}

/// The discrete parameter channels of a scene-description parameter set.
pub struct ParamSet {
    pub bools: Vec<ParamSetItem<bool>>,
    pub ints: Vec<ParamSetItem<i32>>,
}

/// The items of `s` whose name is not `name`, in order.
pub open spec fn remove_named<T>(s: Seq<ParamSetItem<T>>, name: Seq<char>) -> Seq<ParamSetItem<T>>
    decreases s.len(),
{
    if s.len() == 0 {
        Seq::empty()
    } else if s.first().name@ == name {
        remove_named(s.drop_first(), name)
    } else {
        seq![s.first()] + remove_named(s.drop_first(), name)
    }
}

/// The first value recorded in `s` under `name`, or `default` when no item of
/// that name carries a value; items with an empty value list are passed over.
pub open spec fn spec_find_one<T>(s: Seq<ParamSetItem<T>>, name: Seq<char>, default: T) -> T
    decreases s.len(),
{
    if s.len() == 0 {
        default
    } else if s.first().name@ == name && s.first().data@.len() > 0 {
        s.first().data@[0]
    } else {
        spec_find_one(s.drop_first(), name, default)
    }
}

impl ParamSet {
    /// An empty parameter set.
    pub fn new() -> (r: ParamSet)
        ensures
            r.bools@.len() == 0,
            r.ints@.len() == 0,
    {
        ParamSet { bools: Vec::new(), ints: Vec::new() }
    }

    /// Drops every integer item named `name`.
    pub fn erase_int(&mut self, name: &String)
        ensures
            final(self).ints@ == remove_named(old(self).ints@, name@),
            final(self).bools == old(self).bools,
    {
        let ghost s: Seq<ParamSetItem<i32>> = self.ints@;
        let ghost b0: Vec<ParamSetItem<bool>> = self.bools;
        let mut i: usize = 0;
        proof {
            assert(s.skip(0int) =~= s);
            assert(s.take(0int) + remove_named(s.skip(0int), name@) =~= remove_named(s, name@));
        }
        while i < self.ints.len()
            invariant
                0 <= i <= self.ints@.len(),
                self.bools == b0,
                self.ints@.take(i as int) =~= remove_named(s, name@).take(i as int),
                remove_named(s, name@) == self.ints@.take(i as int) + remove_named(
                    self.ints@.skip(i as int),
                    name@,
                ),
            decreases self.ints@.len() - i,
        {
            let ghost v: Seq<ParamSetItem<i32>> = self.ints@;
            proof {
                assert(v.skip(i as int).first() == v[i as int]);
                assert(v.skip(i as int).drop_first() =~= v.skip(i + 1));
            }
            if self.ints[i].name == *name {
                let _dropped: ParamSetItem<i32> = self.ints.remove(i);
                proof {
                    assert(self.ints@.take(i as int) =~= v.take(i as int));
                    assert(self.ints@.skip(i as int) =~= v.skip(i + 1));
                }
            } else {
                proof {
                    assert(v.take(i + 1) =~= v.take(i as int) + seq![v[i as int]]);
                    assert(v.take(i as int) + (seq![v[i as int]] + remove_named(
                        v.skip(i + 1),
                        name@,
                    )) =~= v.take(i + 1) + remove_named(v.skip(i + 1), name@));
                }
                i = i + 1;
            }
        }
        proof {
            assert(self.ints@.skip(i as int) =~= Seq::<ParamSetItem<i32>>::empty());
            assert(self.ints@.take(i as int) =~= self.ints@);
        }
    }

    /// Records `data` under `name` in the integer channel, replacing every
    /// earlier item of that name.
    pub fn add_int(&mut self, name: &String, data: Vec<i32>)
        ensures
            final(self).ints@ == remove_named(old(self).ints@, name@).push(
                (ParamSetItem { name: *name, data: data, looked_up: false }),
            ),
            final(self).bools == old(self).bools,
    {
        self.erase_int(name);
        self.ints.push(ParamSetItem { name: name.clone(), data: data, looked_up: false });
    }

    /// The first integer recorded under `name`, or `default` when the set
    /// holds none.
    pub fn find_one_int(&self, name: &str, default: i32) -> (r: i32)
        ensures
            r == spec_find_one(self.ints@, name@, default),
    {
        let key: String = name.to_owned();
        let n: usize = self.ints.len();
        let ghost s: Seq<ParamSetItem<i32>> = self.ints@;
        let mut i: usize = 0;
        proof {
            assert(s.skip(0int) =~= s);
        }
        while i < n
            invariant
                0 <= i <= n == s.len(),
                s == self.ints@,
                key@ == name@,
                spec_find_one(s, name@, default) == spec_find_one(s.skip(i as int), name@, default),
            decreases n - i,
        {
            proof {
                assert(s.skip(i as int).drop_first() =~= s.skip(i + 1));
                assert(s.skip(i as int).first() == s[i as int]);
            }
            if self.ints[i].name == key && self.ints[i].data.len() > 0 {
                return self.ints[i].data[0];
            }
            i = i + 1;
        }
        proof {
            assert(s.skip(n as int) =~= Seq::<ParamSetItem<i32>>::empty());
        }
        default
    }
}

} // verus!
