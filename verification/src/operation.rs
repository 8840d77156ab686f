//! Ordered side effects requested by one application state transition.
use vstd::prelude::*;

verus! {

/// No side effect, one, or several in order.
#[derive(Debug, Clone, PartialEq, Eq)]
pub enum Operations<T> {
    Nop,
    One(T),
    Many(Vec<T>),
}

/// The side effects, in order.
pub open spec fn operations_view<T>(o: Operations<T>) -> Seq<T> {
    match o {
        Operations::Nop => Seq::<T>::empty(),
        Operations::One(t) => seq![t],
        Operations::Many(v) => v@,
    }
}

/// The side effects of groups, one group after another.
pub open spec fn flattened<T>(groups: Seq<Operations<T>>) -> Seq<T>
    decreases groups.len(),
{
    if groups.len() == 0 {
        Seq::<T>::empty()
    } else {
        flattened(groups.drop_last()) + operations_view(groups.last())
    }
}

/// Whether a value uses the smallest form: `Nop` for none, `One` for one, `Many`
/// only for two or more.
pub open spec fn normal<T>(o: Operations<T>) -> bool {
    match o {
        Operations::Many(v) => v@.len() >= 2,
        _ => true,
    }
}

impl<T> Operations<T> {
    /// The side effects of a list, in the smallest form.
    pub fn from_vec(operations: Vec<T>) -> (o: Operations<T>)
        ensures
            operations_view(o) == operations@,
            normal(o),
    {
        let ghost given = operations@;
        let mut operations = operations;
        if operations.len() == 0 {
            assert(operations@ =~= Seq::<T>::empty());
            Operations::Nop
        } else if operations.len() == 1 {
            let op = operations.pop().unwrap();
            assert(seq![op] =~= given);
            Operations::One(op)
        } else {
            Operations::Many(operations)
        }
    }

    /// One side effect.
    pub fn from_one(operation: T) -> (o: Operations<T>)
        ensures
            o == Operations::One(operation),
    {
        Operations::One(operation)
    }

    /// One side effect, if any.
    pub fn from_option(operation: Option<T>) -> (o: Operations<T>)
        ensures
            operations_view(o) == match operation {
                Some(t) => seq![t],
                None => Seq::<T>::empty(),
            },
            normal(o),
    {
        match operation {
            Some(op) => Operations::One(op),
            None => Operations::Nop,
        }
    }

    /// The side effects of groups, one group after another, in the smallest form.
    pub fn flatten(groups: Vec<Operations<T>>) -> (o: Operations<T>)
        ensures
            operations_view(o) == flattened(groups@),
            normal(o),
    {
        let ghost g = groups@;
        let mut operations: Vec<T> = Vec::new();
        let mut groups = groups;
        let mut done: usize = 0;
        let total = groups.len();
        assert(g.skip(0) =~= g);
        assert(g.take(0) =~= Seq::<Operations<T>>::empty());
        while groups.len() > 0
            invariant
                done <= g.len(),
                g.len() == total,
                groups@ == g.skip(done as int),
                operations@ == flattened(g.take(done as int)),
            decreases groups@.len(),
        {
            let group = groups.remove(0);
            proof {
                assert(group == g[done as int]);
                assert(g.take(done + 1).drop_last() =~= g.take(done as int));
                assert(g.take(done + 1).last() == g[done as int]);
            }
            let ghost before = operations@;
            match group {
                Operations::Nop => {},
                Operations::One(op) => operations.push(op),
                Operations::Many(mut many) => operations.append(&mut many),
            }
            proof {
                assert(groups@ =~= g.skip(done + 1));
                assert(operations@ =~= before + operations_view(g[done as int]));
            }
            done += 1;
        }
        proof {
            assert(g.take(g.len() as int) =~= g);
        }
        Operations::from_vec(operations)
    }
}

} // verus!
