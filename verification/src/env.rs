//! Required environment variables: which are missing, and how they are
//! reported.

use vstd::prelude::*;

use crate::text::push_str;

verus! {

/// The names of the missing variables, in order.
pub open spec fn missing_names(checks: Seq<Option<&'static str>>) -> Seq<Seq<char>>
    decreases checks.len(),
{
    if checks.len() == 0 {
        Seq::empty()
    } else {
        match checks.last() {
            Some(name) => missing_names(checks.drop_last()).push(name@),
            None => missing_names(checks.drop_last()),
        }
    }
}

/// Names separated by `, `.
pub open spec fn comma_joined(names: Seq<Seq<char>>) -> Seq<char>
    decreases names.len(),
{
    if names.len() == 0 {
        Seq::empty()
    } else if names.len() == 1 {
        names[0]
    } else {
        comma_joined(names.drop_last()) + ", "@ + names.last()
    }
}

/// The outcome of checking required variables: for each, the variable's name
/// where it is missing.
pub struct EnvVarErr<const T: usize>(pub [Option<&'static str>; T]);

impl<const T: usize> EnvVarErr<T> {
    pub fn new(inner: [Option<&'static str>; T]) -> (r: Self)
        ensures
            r.0@ == inner@,
    {
        EnvVarErr(inner)
    }

    /// The missing variables' names, separated by `, `, as `Display` writes them.
    pub fn to_text(&self) -> (r: String)
        ensures
            r@ == comma_joined(missing_names(self.0@)),
    {
        let checks = self.0.as_slice();
        let mut out = String::new();
        let mut count: usize = 0;
        let mut i: usize = 0;
        assert(checks@.take(0) =~= Seq::<Option<&'static str>>::empty());
        while i < checks.len()
            invariant
                i <= checks@.len(),
                checks@ == self.0@,
                count == missing_names(checks@.take(i as int)).len(),
                count <= i,
                out@ == comma_joined(missing_names(checks@.take(i as int))),
            decreases checks@.len() - i,
        {
            assert(checks@.take(i + 1).drop_last() =~= checks@.take(i as int));
            match checks[i] {
                Some(name) => {
                    let ghost prev = missing_names(checks@.take(i as int));
                    assert(missing_names(checks@.take(i + 1)) == prev.push(name@));
                    assert(prev.push(name@).drop_last() =~= prev);
                    if count > 0 {
                        push_str(&mut out, ", ");
                    }
                    push_str(&mut out, name);
                    count = count + 1;
                },
                None => {},
            }
            i = i + 1;
        }
        assert(checks@.take(checks@.len() as int) =~= checks@);
        out
    }
}

/// Whether every required variable is set; the outcome of the check is
/// handed back where one is missing.
pub fn check_required<const T: usize>(checks: [Option<&'static str>; T]) -> (r: Result<(), EnvVarErr<T>>)
    ensures
        match r {
            Ok(()) => forall|i: int| 0 <= i < checks@.len() ==> checks@[i] is None,
            Err(e) => e.0@ == checks@ && exists|i: int| 0 <= i < checks@.len() && checks@[i] is Some,
        },
{
    let slice = checks.as_slice();
    let mut i: usize = 0;
    while i < slice.len()
        invariant
            i <= slice@.len(),
            slice@ == checks@,
            forall|j: int| 0 <= j < i ==> slice@[j] is None,
        decreases slice@.len() - i,
    {
        if slice[i].is_some() {
            return Err(EnvVarErr::new(checks));
        }
        i = i + 1;
    }
    Ok(())
}

} // verus!
