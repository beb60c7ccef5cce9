use vstd::prelude::*;
use vstd::string::StringExecFns;
use crate::text::push_char;

verus! {

/// One parameter as text: `key=value`.
pub open spec fn pair_text(p: (Seq<char>, Seq<char>)) -> Seq<char> {
    p.0 + seq!['='] + p.1
}

/// The parameters joined by `&`, in order.
pub open spec fn render(args: Seq<(Seq<char>, Seq<char>)>) -> Seq<char>
    decreases args.len(),
{
    if args.len() == 0 {
        seq![]
    } else if args.len() == 1 {
        pair_text(args[0])
    } else {
        render(args.drop_last()) + seq!['&'] + pair_text(args.last())
    }
}

/// The parameters after an optional one: added when present, else unchanged.
pub open spec fn with_maybe(
    args: Seq<(Seq<char>, Seq<char>)>,
    key: Seq<char>,
    value: Option<Seq<char>>,
) -> Seq<(Seq<char>, Seq<char>)> {
    match value {
        Some(v) => args.push((key, v)),
        None => args,
    }
}

/// The characters of an optional string.
pub open spec fn opt_text(o: Option<&str>) -> Option<Seq<char>> {
    match o {
        Some(v) => Some(v@),
        None => None,
    }
}

/// Leaving out an absent optional parameter renders the same text as never
/// adding it.
pub proof fn lemma_absent_arg_omitted(args: Seq<(Seq<char>, Seq<char>)>, key: Seq<char>)
    ensures
        render(with_maybe(args, key, None)) == render(args),
{
}

/// The request parameters, in the order in which they were added.
#[derive(Clone, Debug)]
pub struct Query {
    args: Vec<(String, String)>,
}

impl View for Query {
    type V = Seq<(Seq<char>, Seq<char>)>;

    closed spec fn view(&self) -> Self::V {
        self.args@.map_values(|p: (String, String)| (p.0@, p.1@))
    }
}

impl Query {
    /// A query with no parameters.
    pub fn new() -> (r: Query)
        ensures
            r@ == Seq::<(Seq<char>, Seq<char>)>::empty(),
    {
        let r = Query { args: Vec::new() };
        assert(r@ =~= Seq::<(Seq<char>, Seq<char>)>::empty());
        r
    }

    /// A query with the one parameter `key=value`.
    pub fn with(key: &str, value: &str) -> (r: Query)
        ensures
            r@ == seq![(key@, value@)],
    {
        Query::new().arg(key, value)
    }

    /// Adds the parameter `key=value` at the end.
    pub fn arg(self, key: &str, value: &str) -> (r: Query)
        ensures
            r@ == self@.push((key@, value@)),
    {
        let mut args = self.args;
        args.push((key.to_owned(), value.to_owned()));
        let r = Query { args };
        assert(r@ =~= self@.push((key@, value@)));
        r
    }

    /// Adds `key=value` when `value` is present; otherwise leaves the query
    /// as it is.
    pub fn maybe_arg(self, key: &str, value: Option<&str>) -> (r: Query)
        ensures
            r@ == with_maybe(self@, key@, opt_text(value)),
    {
        match value {
            Some(v) => self.arg(key, v),
            None => self,
        }
    }

    /// Renders `key1=value1&key2=value2...` in insertion order.
    pub fn build(&self) -> (r: String)
        ensures
            r@ == render(self@),
    {
        let mut out = String::new();
        let mut i: usize = 0;
        while i < self.args.len()
            invariant
                i <= self.args@.len(),
                out@ == render(self@.take(i as int)),
            decreases self.args@.len() - i,
        {
            let ghost before = out@;
            if i > 0 {
                push_char(&mut out, '&');
            }
            out.append(self.args[i].0.as_str());
            push_char(&mut out, '=');
            out.append(self.args[i].1.as_str());
            proof {
                let t = self@.take(i as int + 1);
                assert(t.drop_last() =~= self@.take(i as int));
                assert(t.last() == self@[i as int]);
                if i == 0 {
                    assert(out@ =~= pair_text(self@[0]));
                } else {
                    assert(out@ =~= before + seq!['&'] + pair_text(self@[i as int]));
                }
            }
            i = i + 1;
        }
        assert(self@.take(self.args@.len() as int) =~= self@);
        out
    }
}

} // verus!
