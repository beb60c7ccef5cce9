use vstd::prelude::*;
use vstd::string::to_string_from_display_ensures;

verus! {

/// The text of an optional value, through its `Display`.
pub fn map_str<T: core::fmt::Display>(v: Option<T>) -> (r: Option<String>)
    ensures
        v is Some <==> r is Some,
        r matches Some(s) ==> to_string_from_display_ensures::<T>(&v->Some_0, s),
{
    match v {
        Some(t) => Some(t.to_string()),
        None => None,
    }
}

/// Applies `f` to each element of an optional vector, in order.
pub fn map_some_vec<T, U, F: Fn(&T) -> U>(sv: Option<Vec<T>>, f: F) -> (r: Option<Vec<U>>)
    requires
        sv matches Some(v) ==> forall|i: int| 0 <= i < v.len() ==> f.requires((&v[i],)),
    ensures
        sv is Some <==> r is Some,
        r matches Some(out) ==> out.len() == sv->Some_0.len() && forall|i: int|
            0 <= i < out.len() ==> f.ensures((&sv->Some_0[i],), #[trigger] out[i]),
{
    match sv {
        None => None,
        Some(v) => {
            let mut out: Vec<U> = Vec::new();
            let mut i: usize = 0;
            while i < v.len()
                invariant
                    i <= v.len(),
                    out.len() == i,
                    forall|j: int| 0 <= j < v.len() ==> f.requires((&v[j],)),
                    forall|j: int| 0 <= j < i ==> f.ensures((&v[j],), #[trigger] out[j]),
                decreases v.len() - i,
            {
                let u = f(&v[i]);
                out.push(u);
                i = i + 1;
            }
            Some(out)
        },
    }
}

/// The text of each element of an optional vector, through its `Display`.
pub fn map_vec_string<T: core::fmt::Display>(sv: Option<Vec<T>>) -> (r: Option<Vec<String>>)
    ensures
        sv is Some <==> r is Some,
        r matches Some(out) ==> out.len() == sv->Some_0.len() && forall|i: int|
            0 <= i < out.len() ==> to_string_from_display_ensures::<T>(
                &sv->Some_0[i],
                #[trigger] out[i],
            ),
{
    let text = (|t: &T| -> (s: String)
        ensures
            to_string_from_display_ensures::<T>(t, s),
        { t.to_string() });
    map_some_vec(sv, text)
}

} // verus!
