//! An in-memory snapshot of the process environment: the read-only source the
//! classifier works from.  Absence of a variable is a distinct outcome, never
//! conflated with an empty value.

use vstd::prelude::*;

verus! {

/// What a snapshot means: a sequence of name/value bindings, looked up
/// first-match-first.
pub open spec fn env_lookup(e: Seq<(Seq<char>, Seq<char>)>, name: Seq<char>) -> Option<Seq<char>>
    decreases e.len(),
{
    if e.len() == 0 {
        None
    } else if e[0].0 == name {
        Some(e[0].1)
    } else {
        env_lookup(e.drop_first(), name)
    }
}

/// A snapshot of every environment variable, taken once per invocation.  It
/// both answers the classifier's lookups and travels whole inside the
/// unrecognized outcome for diagnosis.
#[derive(Debug)]
pub struct EntireEnvContext {
    vars: Vec<(String, String)>,
}

impl View for EntireEnvContext {
    type V = Seq<(Seq<char>, Seq<char>)>;

    closed spec fn view(&self) -> Seq<(Seq<char>, Seq<char>)> {
        self.vars.deep_view()
    }
}

impl EntireEnvContext {
    /// Wraps a list of name/value bindings as a snapshot.
    pub fn new(vars: Vec<(String, String)>) -> (r: Self)
        ensures
            r@ == vars.deep_view(),
    {
        EntireEnvContext { vars }
    }

    /// The value bound to `name`, or `None` when the variable is absent.
    pub fn lookup(&self, name: &str) -> (r: Option<String>)
        ensures
            match env_lookup(self@, name@) {
                Some(v) => r matches Some(s) && s@ == v,
                None => r is None,
            },
    {
        let key = String::from_str(name);
        let n = self.vars.len();
        let mut i: usize = 0;
        proof {
            assert(self@.skip(0) =~= self@);
        }
        while i < n
            invariant
                i <= n == self.vars.len(),
                key@ == name@,
                self@ == self.vars.deep_view(),
                env_lookup(self@, name@) == env_lookup(self@.skip(i as int), name@),
            decreases n - i,
        {
            let pair = &self.vars[i];
            proof {
                assert(self@.skip(i as int)[0] == self@[i as int]);
            }
            if pair.0 == key {
                return Some(pair.1.clone());
            }
            proof {
                assert(self@.skip(i as int).drop_first() =~= self@.skip(i as int + 1));
            }
            i = i + 1;
        }
        proof {
            assert(self@.skip(n as int) =~= Seq::<(Seq<char>, Seq<char>)>::empty());
        }
        None
    }

    /// The bindings of the snapshot, in order.
    pub fn vars(&self) -> (r: &Vec<(String, String)>)
        ensures
            r.deep_view() == self@,
    {
        &self.vars
    }
}

} // verus!
