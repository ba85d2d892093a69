//! Text rendering of the JSON shapes the snarkjs schema uses: strings,
//! arrays of strings, and arrays of such arrays.
//!
//! Every string this crate emits is a decimal digit string or a fixed
//! identifier, so no JSON escaping is ever needed; the spec functions below
//! define the emitted text exactly, character by character.

use vstd::prelude::*;
use vstd::string::*;

verus! {

/// A JSON string: the characters between double quotes, unescaped.
pub open spec fn quoted(s: Seq<char>) -> Seq<char> {
    seq!['"'] + s + seq!['"']
}

/// The comma-separated quoted items of a JSON array of strings.
pub open spec fn quoted_items(xs: Seq<Seq<char>>) -> Seq<char>
    decreases xs.len(),
{
    if xs.len() == 0 {
        Seq::empty()
    } else if xs.len() == 1 {
        quoted(xs[0])
    } else {
        quoted_items(xs.drop_last()) + seq![','] + quoted(xs.last())
    }
}

/// A JSON array of strings.
pub open spec fn str_array(xs: Seq<Seq<char>>) -> Seq<char> {
    seq!['['] + quoted_items(xs) + seq![']']
}

/// The comma-separated items of a JSON array whose items are arrays of
/// strings.
pub open spec fn array_items(xss: Seq<Seq<Seq<char>>>) -> Seq<char>
    decreases xss.len(),
{
    if xss.len() == 0 {
        Seq::empty()
    } else if xss.len() == 1 {
        str_array(xss[0])
    } else {
        array_items(xss.drop_last()) + seq![','] + str_array(xss.last())
    }
}

/// A JSON array of arrays of strings.
pub open spec fn str_array2(xss: Seq<Seq<Seq<char>>>) -> Seq<char> {
    seq!['['] + array_items(xss) + seq![']']
}

/// Append a JSON string to the output.
pub(crate) fn append_quoted(out: &mut String, s: &str)
    ensures
        final(out)@ == old(out)@ + quoted(s@),
{
    out.append("\"");
    out.append(s);
    out.append("\"");
    proof {
        reveal_strlit("\"");
        assert(final(out)@ =~= old(out)@ + quoted(s@));
    }
}

/// Append a JSON array of strings to the output.
pub fn append_str_array(out: &mut String, xs: &Vec<String>)
    ensures
        final(out)@ == old(out)@ + str_array(xs.deep_view()),
{
    let ghost base = out@;
    let ghost dv = xs.deep_view();
    out.append("[");
    proof {
        reveal_strlit("[");
        reveal_strlit("]");
        reveal_strlit(",");
    }
    let mut i: usize = 0;
    while i < xs.len()
        invariant
            i <= xs@.len(),
            dv == xs.deep_view(),
            dv.len() == xs@.len(),
            out@ == base + seq!['['] + quoted_items(dv.take(i as int)),
        decreases xs@.len() - i,
    {
        let ghost before = out@;
        if i > 0 {
            out.append(",");
        }
        append_quoted(out, xs[i].as_str());
        proof {
            reveal_strlit(",");
            assert(dv[i as int] == xs@[i as int]@);
            assert(dv.take(i + 1 as int).drop_last() =~= dv.take(i as int));
            assert(dv.take(i + 1 as int).last() == dv[i as int]);
            if i == 0 {
                assert(quoted_items(dv.take(1)) == quoted(dv[0]));
                assert(out@ =~= base + seq!['['] + quoted_items(dv.take(i + 1 as int)));
            } else {
                assert(quoted_items(dv.take(i + 1 as int)) == quoted_items(dv.take(i as int))
                    + seq![','] + quoted(dv[i as int]));
                assert(out@ =~= base + seq!['['] + quoted_items(dv.take(i + 1 as int)));
            }
        }
        i += 1;
    }
    out.append("]");
    proof {
        reveal_strlit("]");
        assert(dv.take(xs@.len() as int) =~= dv);
        assert(final(out)@ =~= base + str_array(dv));
    }
}

/// Append a JSON array of arrays of strings to the output.
pub fn append_str_array2(out: &mut String, xss: &Vec<Vec<String>>)
    ensures
        final(out)@ == old(out)@ + str_array2(xss.deep_view()),
{
    let ghost base = out@;
    let ghost dv = xss.deep_view();
    out.append("[");
    proof {
        reveal_strlit("[");
        reveal_strlit("]");
        reveal_strlit(",");
    }
    let mut i: usize = 0;
    while i < xss.len()
        invariant
            i <= xss@.len(),
            dv == xss.deep_view(),
            dv.len() == xss@.len(),
            out@ == base + seq!['['] + array_items(dv.take(i as int)),
        decreases xss@.len() - i,
    {
        if i > 0 {
            out.append(",");
        }
        append_str_array(out, &xss[i]);
        proof {
            reveal_strlit(",");
            assert(dv[i as int] == xss@[i as int].deep_view());
            assert(dv.take(i + 1 as int).drop_last() =~= dv.take(i as int));
            assert(dv.take(i + 1 as int).last() == dv[i as int]);
            if i == 0 {
                assert(array_items(dv.take(1)) == str_array(dv[0]));
                assert(out@ =~= base + seq!['['] + array_items(dv.take(i + 1 as int)));
            } else {
                assert(array_items(dv.take(i + 1 as int)) == array_items(dv.take(i as int))
                    + seq![','] + str_array(dv[i as int]));
                assert(out@ =~= base + seq!['['] + array_items(dv.take(i + 1 as int)));
            }
        }
        i += 1;
    }
    out.append("]");
    proof {
        reveal_strlit("]");
        assert(dv.take(xss@.len() as int) =~= dv);
        assert(final(out)@ =~= base + str_array2(dv));
    }
}

} // verus!
