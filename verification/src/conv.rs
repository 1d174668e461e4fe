//! Conversions between native codes and values of `wgpu`, as the entry points use them.
//!
//! An entry point takes each conversion as a function. What it promises is stated over the
//! results that the function may give.

use vstd::prelude::*;

verus! {

/// `out` is what the conversion gives for the code, or `default` where it gives nothing.
pub open spec fn mapped_or<A, T, F: Fn(A) -> Option<T>>(
    map: F,
    code: A,
    default: T,
    out: T,
) -> bool {
    exists|o: Option<T>| #[trigger]
        call_ensures(map, (code,), o) && out == (match o {
            Some(t) => t,
            None => default,
        })
}

/// The conversion knows the code.
pub open spec fn known<A, T, F: Fn(A) -> Option<T>>(map: F, code: A) -> bool {
    &&& call_requires(map, (code,))
    &&& forall|o: Option<T>| #[trigger] call_ensures(map, (code,), o) ==> o is Some
}

/// The values in the sequence, in order, without the gaps.
pub open spec fn present<T>(options: Seq<Option<T>>) -> Seq<T>
    decreases options.len(),
{
    if options.len() == 0 {
        Seq::empty()
    } else {
        match options.last() {
            Some(t) => present(options.drop_last()).push(t),
            None => present(options.drop_last()),
        }
    }
}

/// The options are what the conversion gives for the codes, one by one.
pub open spec fn results<A, T, F: Fn(A) -> T>(map: F, codes: Seq<A>, out: Seq<T>) -> bool {
    &&& out.len() == codes.len()
    &&& forall|i: int|
        0 <= i < codes.len() ==> #[trigger] call_ensures(map, (codes[i],), out[i])
}

/// The value is what the conversion gives for one of the codes.
pub open spec fn given_for_one<A, T, F: Fn(A) -> Option<T>>(
    map: F,
    codes: Seq<A>,
    value: T,
) -> bool {
    exists|i: int|
        0 <= i < codes.len() && call_ensures(map, (#[trigger] codes[i],), Some(value))
}

/// `out` holds, in the order of the codes, what the conversion gives for those that it knows.
pub open spec fn filter_mapped<A, T, F: Fn(A) -> Option<T>>(
    map: F,
    codes: Seq<A>,
    out: Seq<T>,
) -> bool {
    exists|options: Seq<Option<T>>|
        results(map, codes, options) && out == #[trigger] present(options)
}

/// The first items of a C array.
pub fn make_slice<'a, T>(data: &'a [T], len: usize) -> (items: &'a [T])
    requires
        len <= data@.len(),
    ensures
        items@ == data@.take(len as int),
{
    vstd::slice::slice_subrange(data, 0, len)
}

/// The conversion of the code, or the default.
pub fn map_or<A, T, F: Fn(A) -> Option<T>>(map: &F, code: A, default: T) -> (out: T)
    requires
        call_requires(*map, (code,)),
    ensures
        mapped_or(*map, code, default, out),
        call_ensures(*map, (code,), Some(out)) || call_ensures(*map, (code,), None) && out
            == default,
{
    match map(code) {
        Some(t) => t,
        None => default,
    }
}

/// The conversion of a code that it knows.
pub fn map_known<A, T, F: Fn(A) -> Option<T>>(map: &F, code: A) -> (out: T)
    requires
        known(*map, code),
    ensures
        call_ensures(*map, (code,), Some(out)),
{
    map(code).unwrap()
}

/// The conversions of codes that are all known, in order.
pub fn map_all_known<A: Copy, T, F: Fn(A) -> Option<T>>(map: &F, codes: &Vec<A>) -> (out: Vec<T>)
    requires
        forall|i: int| 0 <= i < codes@.len() ==> known(*map, #[trigger] codes@[i]),
    ensures
        out@.len() == codes@.len(),
        forall|i: int|
            0 <= i < codes@.len() ==> #[trigger] call_ensures(*map, (codes@[i],), Some(out@[i])),
{
    let mut out: Vec<T> = Vec::new();
    let mut i: usize = 0;
    while i < codes.len()
        invariant
            i <= codes@.len(),
            out@.len() == i,
            forall|j: int| 0 <= j < codes@.len() ==> known(*map, #[trigger] codes@[j]),
            forall|j: int|
                0 <= j < i ==> #[trigger] call_ensures(*map, (codes@[j],), Some(out@[j])),
        decreases codes@.len() - i,
    {
        let value = map_known(map, codes[i]);
        out.push(value);
        i = i + 1;
    }
    out
}

/// The conversions of all codes, in order.
pub fn map_each<A: Copy, T, F: Fn(A) -> T>(map: &F, codes: &Vec<A>) -> (out: Vec<T>)
    requires
        forall|i: int| 0 <= i < codes@.len() ==> call_requires(*map, (#[trigger] codes@[i],)),
    ensures
        results(*map, codes@, out@),
        out@.len() == codes@.len(),
        forall|i: int|
            0 <= i < codes@.len() ==> #[trigger] call_ensures(*map, (codes@[i],), out@[i]),
{
    let mut out: Vec<T> = Vec::new();
    let mut i: usize = 0;
    while i < codes.len()
        invariant
            i <= codes@.len(),
            out@.len() == i,
            forall|j: int| 0 <= j < codes@.len() ==> call_requires(*map, (#[trigger] codes@[j],)),
            forall|j: int| 0 <= j < i ==> #[trigger] call_ensures(*map, (codes@[j],), out@[j]),
        decreases codes@.len() - i,
    {
        let value = map(codes[i]);
        out.push(value);
        i = i + 1;
    }
    out
}

/// The conversions of the codes that are known, in order. Unknown codes are left out.
pub fn filter_map_each<A: Copy, T, F: Fn(A) -> Option<T>>(map: &F, codes: &Vec<A>) -> (out: Vec<T>)
    requires
        forall|i: int| 0 <= i < codes@.len() ==> call_requires(*map, (#[trigger] codes@[i],)),
    ensures
        filter_mapped(*map, codes@, out@),
{
    let mut out: Vec<T> = Vec::new();
    let ghost mut options: Seq<Option<T>> = Seq::empty();
    let mut i: usize = 0;
    while i < codes.len()
        invariant
            i <= codes@.len(),
            options.len() == i,
            forall|j: int| 0 <= j < codes@.len() ==> call_requires(*map, (#[trigger] codes@[j],)),
            forall|j: int| 0 <= j < i ==> #[trigger] call_ensures(*map, (codes@[j],), options[j]),
            out@ == present(options),
        decreases codes@.len() - i,
    {
        let option = map(codes[i]);
        let ghost before = options;
        proof {
            options = options.push(option);
            assert(options.drop_last() == before);
        }
        match option {
            Some(t) => out.push(t),
            None => {},
        }
        i = i + 1;
    }
    proof {
        assert(results(*map, codes@, options));
    }
    out
}

/// Where unknown codes are left out, no other is invented: there are at most as many values as
/// codes, and each value is what the conversion gave for one of the codes.
pub proof fn law_only_known_codes_are_listed<A, T, F: Fn(A) -> Option<T>>(
    map: F,
    codes: Seq<A>,
    out: Seq<T>,
)
    requires
        filter_mapped(map, codes, out),
    ensures
        out.len() <= codes.len(),
        forall|k: int| 0 <= k < out.len() ==> given_for_one(map, codes, #[trigger] out[k]),
{
    let options = choose|options: Seq<Option<T>>|
        results(map, codes, options) && out == #[trigger] present(options);
    lemma_present(options);
    assert forall|k: int| 0 <= k < out.len() implies given_for_one(map, codes, #[trigger] out[k]) by {
        let i = choose|i: int| 0 <= i < options.len() && options[i] == Some(out[k]);
        assert(call_ensures(map, (codes[i],), options[i]));
    }
}

/// Where every code is known, none is left out and the order is kept.
pub proof fn law_known_codes_are_all_listed<A, T, F: Fn(A) -> Option<T>>(
    map: F,
    codes: Seq<A>,
    out: Seq<T>,
)
    requires
        filter_mapped(map, codes, out),
        forall|i: int| 0 <= i < codes.len() ==> known(map, #[trigger] codes[i]),
    ensures
        out.len() == codes.len(),
        forall|i: int|
            0 <= i < codes.len() ==> #[trigger] call_ensures(map, (codes[i],), Some(out[i])),
{
    let options = choose|options: Seq<Option<T>>|
        results(map, codes, options) && out == #[trigger] present(options);
    assert forall|i: int| 0 <= i < options.len() implies #[trigger] options[i] is Some by {
        assert(known(map, codes[i]));
        assert(call_ensures(map, (codes[i],), options[i]));
    }
    lemma_present_all(options);
    assert forall|i: int| 0 <= i < codes.len() implies #[trigger] call_ensures(
        map,
        (codes[i],),
        Some(out[i]),
    ) by {
        assert(call_ensures(map, (codes[i],), options[i]));
        assert(options[i] == Some(out[i]));
    }
}

proof fn lemma_present<T>(options: Seq<Option<T>>)
    ensures
        present(options).len() <= options.len(),
        forall|k: int|
            0 <= k < present(options).len() ==> exists|i: int|
                0 <= i < options.len() && #[trigger] options[i] == Some(
                    #[trigger] present(options)[k],
                ),
    decreases options.len(),
{
    if options.len() > 0 {
        let fewer = options.drop_last();
        lemma_present(fewer);
        assert forall|k: int| 0 <= k < present(options).len() implies exists|i: int|
            0 <= i < options.len() && #[trigger] options[i] == Some(
                #[trigger] present(options)[k],
            ) by {
            if k < present(fewer).len() {
                let i = choose|i: int| 0 <= i < fewer.len() && fewer[i] == Some(present(fewer)[k]);
                assert(options[i] == Some(present(options)[k]));
            } else {
                assert(options[options.len() - 1] == Some(present(options)[k]));
            }
        }
    }
}

proof fn lemma_present_all<T>(options: Seq<Option<T>>)
    requires
        forall|i: int| 0 <= i < options.len() ==> #[trigger] options[i] is Some,
    ensures
        present(options).len() == options.len(),
        forall|i: int|
            0 <= i < options.len() ==> #[trigger] options[i] == Some(present(options)[i]),
    decreases options.len(),
{
    if options.len() > 0 {
        let fewer = options.drop_last();
        lemma_present_all(fewer);
        assert(options.last() is Some);
        assert forall|i: int| 0 <= i < options.len() implies #[trigger] options[i] == Some(
            present(options)[i],
        ) by {
            if i < fewer.len() {
                assert(fewer[i] == options[i]);
            }
        }
    }
}

/// A code converts to what the conversion gives for it, or to the default where it gives nothing:
/// so a known code never becomes the default, and an unknown code always does.
pub proof fn law_defaults_are_for_unknown_codes<A, T, F: Fn(A) -> Option<T>>(
    map: F,
    code: A,
    default: T,
    out: T,
)
    ensures
        mapped_or(map, code, default, out) <==> (call_ensures(map, (code,), Some(out)) || (
        call_ensures(map, (code,), None) && out == default)),
{
    if call_ensures(map, (code,), Some(out)) {
        assert(mapped_or(map, code, default, out));
    }
    if call_ensures(map, (code,), None) && out == default {
        assert(mapped_or(map, code, default, out));
    }
}

/// Every code has its value, at its own place.
pub proof fn law_results_stand_in_order<A, T, F: Fn(A) -> T>(map: F, codes: Seq<A>, out: Seq<T>)
    ensures
        results(map, codes, out) <==> out.len() == codes.len() && forall|i: int|
            0 <= i < codes.len() ==> #[trigger] call_ensures(map, (codes[i],), out[i]),
{
}

/// Codes are listed one after the other: one code more adds at the end the value that the
/// conversion gives for it, and nothing where it gives none. Without codes nothing is listed.
pub proof fn law_codes_are_listed_one_by_one<A, T, F: Fn(A) -> Option<T>>(
    map: F,
    codes: Seq<A>,
    code: A,
    out: Seq<T>,
)
    ensures
        filter_mapped(map, Seq::<A>::empty(), out) <==> out.len() == 0,
        filter_mapped(map, codes.push(code), out) <==> {
            ||| call_ensures(map, (code,), None) && filter_mapped(map, codes, out)
            ||| out.len() > 0 && call_ensures(map, (code,), Some(out.last())) && filter_mapped(
                map,
                codes,
                out.drop_last(),
            )
        },
{
    let none = Seq::<Option<T>>::empty();
    assert(results(map, Seq::<A>::empty(), none));
    if out.len() == 0 {
        assert(out =~= present(none));
    }
    let more = codes.push(code);
    if filter_mapped(map, more, out) {
        let options = choose|options: Seq<Option<T>>|
            results(map, more, options) && out == #[trigger] present(options);
        let fewer = options.drop_last();
        assert(call_ensures(map, (more[codes.len() as int],), options[codes.len() as int]));
        assert(call_ensures(map, (code,), options.last()));
        assert forall|i: int| 0 <= i < codes.len() implies #[trigger] call_ensures(
            map,
            (codes[i],),
            fewer[i],
        ) by {
            assert(call_ensures(map, (more[i],), options[i]));
        }
        assert(results(map, codes, fewer));
        assert(filter_mapped(map, codes, present(fewer)));
        if let Some(value) = options.last() {
            assert(out.last() == value);
            assert(out.drop_last() =~= present(fewer));
        }
    }
    if call_ensures(map, (code,), None) && filter_mapped(map, codes, out) {
        let options = choose|options: Seq<Option<T>>|
            results(map, codes, options) && out == #[trigger] present(options);
        lemma_one_more_result(map, codes, options, code, None);
        assert(options.push(None).drop_last() =~= options);
        assert(out == present(options.push(None)));
    }
    if out.len() > 0 && call_ensures(map, (code,), Some(out.last())) && filter_mapped(
        map,
        codes,
        out.drop_last(),
    ) {
        let options = choose|options: Seq<Option<T>>|
            results(map, codes, options) && out.drop_last() == #[trigger] present(options);
        lemma_one_more_result(map, codes, options, code, Some(out.last()));
        assert(options.push(Some(out.last())).drop_last() =~= options);
        assert(out =~= present(options.push(Some(out.last()))));
    }
}

proof fn lemma_one_more_result<A, T, F: Fn(A) -> T>(
    map: F,
    codes: Seq<A>,
    out: Seq<T>,
    code: A,
    value: T,
)
    requires
        results(map, codes, out),
        call_ensures(map, (code,), value),
    ensures
        results(map, codes.push(code), out.push(value)),
{
    let (more, values) = (codes.push(code), out.push(value));
    assert forall|i: int| 0 <= i < more.len() implies #[trigger] call_ensures(
        map,
        (more[i],),
        values[i],
    ) by {
        if i < codes.len() {
            assert(call_ensures(map, (codes[i],), out[i]));
        }
    }
}

} // verus!
