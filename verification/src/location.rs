//! The location query: the city / region / country parts taken from the
//! command line, and the comma-joined form that becomes the `q` query
//! parameter.

use vstd::prelude::*;

verus! {

/// The character sequences of a list of strings, in order.
pub open spec fn views_of(parts: Seq<String>) -> Seq<Seq<char>> {
    parts.map_values(|s: String| s@)
}

/// The parts joined with a single comma between neighbours, in order.
pub open spec fn joined_with_commas(parts: Seq<Seq<char>>) -> Seq<char>
    decreases parts.len(),
{
    if parts.len() == 0 {
        Seq::empty()
    } else if parts.len() == 1 {
        parts[0]
    } else {
        parts[0] + seq![','] + joined_with_commas(parts.drop_first())
    }
}

/// Appending one more part to a non-empty list extends the join by a
/// comma and that part.
proof fn lemma_joined_push(parts: Seq<Seq<char>>, part: Seq<char>)
    ensures
        parts.len() == 0 ==> joined_with_commas(parts.push(part)) == part,
        parts.len() > 0 ==> joined_with_commas(parts.push(part))
            == joined_with_commas(parts) + seq![','] + part,
    decreases parts.len(),
{
    let p = parts.push(part);
    if parts.len() == 0 {
        assert(p.len() == 1);
        assert(p[0] == part);
    } else if parts.len() == 1 {
        assert(p.drop_first() =~= seq![part]);
        assert(joined_with_commas(seq![part]) == part);
        assert(joined_with_commas(p) == parts[0] + seq![','] + part);
        assert(joined_with_commas(parts) == parts[0]);
    } else {
        lemma_joined_push(parts.drop_first(), part);
        assert(p.drop_first() =~= parts.drop_first().push(part));
        assert(joined_with_commas(p)
            == parts[0] + seq![','] + joined_with_commas(parts.drop_first().push(part)));
        assert(parts[0] + seq![','] + (joined_with_commas(parts.drop_first()) + seq![','] + part)
            =~= (parts[0] + seq![','] + joined_with_commas(parts.drop_first())) + seq![','] + part);
    }
}

/// A location query: one to three parts, city first, then the optional
/// region and country.
pub struct LocationQuery {
    pub parts: Vec<String>,
}

impl LocationQuery {
    /// A query is well formed when it has between one and three parts.
    pub open spec fn wf(self) -> bool {
        1 <= self.parts@.len() <= 3
    }

    /// Join the parts with commas, giving the value of the `q` query
    /// parameter.
    pub fn joined(&self) -> (r: String)
        ensures
            r@ == joined_with_commas(views_of(self.parts@)),
    {
        let mut out = String::new();
        let n = self.parts.len();
        for i in 0..n
            invariant
                n == self.parts@.len(),
                out@ == joined_with_commas(views_of(self.parts@).subrange(0, i as int)),
        {
            proof {
                let vs = views_of(self.parts@);
                lemma_joined_push(vs.subrange(0, i as int), vs[i as int]);
                assert(vs.subrange(0, i as int).push(vs[i as int])
                    =~= vs.subrange(0, i + 1 as int));
            }
            if i > 0 {
                out.append(",");
                proof {
                    reveal_strlit(",");
                    assert(","@ =~= seq![',']);
                }
            }
            out.append(self.parts[i].as_str());
        }
        proof {
            assert(views_of(self.parts@).subrange(0, n as int) =~= views_of(self.parts@));
        }
        out
    }
}

/// The outcome of looking at the command line: either a location to
/// fetch the weather for, or a request for the usage text.
pub enum Invocation {
    Fetch(LocationQuery),
    Help,
}

/// Read the argument list (program name first) and decide between the
/// fetch path and the help path. One to three location parts select the
/// fetch path; any other count selects help.
pub fn parse_args(args: &Vec<String>) -> (r: Invocation)
    ensures
        2 <= args@.len() <= 4 ==> (r matches Invocation::Fetch(q)
            && q.wf()
            && views_of(q.parts@) == views_of(args@).subrange(1, args@.len() as int)),
        !(2 <= args@.len() <= 4) ==> (r matches Invocation::Help),
{
    let n = args.len();
    if 2 <= n && n <= 4 {
        let mut parts: Vec<String> = Vec::new();
        for i in 1..n
            invariant
                n == args@.len() <= 4,
                parts@.len() == i - 1,
                views_of(parts@) =~= views_of(args@).subrange(1, i as int),
        {
            parts.push(args[i].clone());
            proof {
                assert(views_of(parts@) =~= views_of(args@).subrange(1, i + 1 as int));
            }
        }
        Invocation::Fetch(LocationQuery { parts })
    } else {
        Invocation::Help
    }
}

} // verus!
