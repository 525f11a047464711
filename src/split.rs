//! Partitioning of the invocation arguments on the separator token `::`.
use vstd::prelude::*;
use vstd::string::*;
use crate::error::{ErrorView, WrapError};

verus! {

/// True when `s` is the separator token.
pub open spec fn is_sep(s: Seq<char>) -> bool {
    s == seq![':', ':']
}

/// True when no element of `a` is the separator token.
pub open spec fn sep_free(a: Seq<Seq<char>>) -> bool {
    forall|i: int| 0 <= i < a.len() ==> !is_sep(#[trigger] a[i])
}

/// Index of the first separator in `a`, or `a.len()` when there is none.
pub open spec fn first_sep(a: Seq<Seq<char>>) -> int
    decreases a.len(),
{
    if a.len() == 0 {
        0
    } else if is_sep(a[0]) {
        0
    } else {
        1 + first_sep(a.drop_first())
    }
}

/// The partition of `a` into tool arguments and build-tool arguments:
/// what precedes the first separator, and what lies between it and a second
/// one (or the end). Without a separator everything is a build-tool argument.
pub open spec fn split_spec(a: Seq<Seq<char>>) -> (Seq<Seq<char>>, Seq<Seq<char>>) {
    let k = first_sep(a);
    if k == a.len() {
        (Seq::empty(), a)
    } else {
        let rest = a.skip(k + 1);
        (a.take(k), rest.take(first_sep(rest)))
    }
}

/// The invocation arguments split into the tool's own and the build tool's.
#[derive(Debug)]
pub struct ArgumentPartition {
    pub tool_args: Vec<String>,
    pub build_args: Vec<String>,
}

impl View for ArgumentPartition {
    type V = (Seq<Seq<char>>, Seq<Seq<char>>);

    open spec fn view(&self) -> Self::V {
        (self.tool_args.deep_view(), self.build_args.deep_view())
    }
}

/// `first_sep` is the least index holding a separator, or the length.
pub proof fn lemma_first_sep(a: Seq<Seq<char>>)
    ensures
        0 <= first_sep(a) <= a.len(),
        forall|j: int| 0 <= j < first_sep(a) ==> !is_sep(#[trigger] a[j]),
        first_sep(a) < a.len() ==> is_sep(a[first_sep(a)]),
    decreases a.len(),
{
    if a.len() > 0 && !is_sep(a[0]) {
        lemma_first_sep(a.drop_first());
        assert forall|j: int| 0 <= j < first_sep(a) implies !is_sep(#[trigger] a[j]) by {
            if j > 0 {
                assert(a[j] == a.drop_first()[j - 1]);
            }
        }
    }
}

/// An index before which no separator stands, and at which one stands (or
/// the sequence ends), is `first_sep`.
pub proof fn lemma_first_sep_at(a: Seq<Seq<char>>, i: int)
    requires
        0 <= i <= a.len(),
        forall|j: int| 0 <= j < i ==> !is_sep(#[trigger] a[j]),
        i == a.len() || is_sep(a[i]),
    ensures
        first_sep(a) == i,
{
    lemma_first_sep(a);
    if first_sep(a) < i {
        assert(is_sep(a[first_sep(a)]));
    }
}

/// With exactly one separator, at index `k`, the tool arguments are the `k`
/// elements before it and the build-tool arguments are all that follow it.
pub proof fn lemma_split_one_separator(a: Seq<Seq<char>>, k: int)
    requires
        0 <= k < a.len(),
        is_sep(a[k]),
        forall|i: int| 0 <= i < a.len() && i != k ==> !is_sep(#[trigger] a[i]),
    ensures
        split_spec(a) == (a.take(k), a.skip(k + 1)),
{
    lemma_first_sep_at(a, k);
    let rest = a.skip(k + 1);
    lemma_first_sep_at(rest, rest.len() as int);
    assert(rest.take(rest.len() as int) =~= rest);
}

/// Without a separator, there are no tool arguments and every argument goes
/// to the build tool.
pub proof fn lemma_split_no_separator(a: Seq<Seq<char>>)
    requires
        sep_free(a),
    ensures
        split_spec(a) == (Seq::<Seq<char>>::empty(), a),
{
    lemma_first_sep_at(a, a.len() as int);
}

/// With two or more separators, only the first (at `i`) splits: the build-tool
/// arguments end at the second (at `j`), and what follows it is dropped.
/// Joining the two parts around one separator and splitting again gives the
/// same partition.
pub proof fn lemma_split_two_separators(a: Seq<Seq<char>>, i: int, j: int)
    requires
        0 <= i < j < a.len(),
        is_sep(a[i]),
        is_sep(a[j]),
        forall|m: int| 0 <= m < j && m != i ==> !is_sep(#[trigger] a[m]),
    ensures
        split_spec(a) == (a.take(i), a.subrange(i + 1, j)),
        split_spec(split_spec(a).0 + seq![seq![':', ':']] + split_spec(a).1) == split_spec(a),
{
    lemma_first_sep_at(a, i);
    let rest = a.skip(i + 1);
    assert forall|m: int| 0 <= m < j - i - 1 implies !is_sep(#[trigger] rest[m]) by {
        assert(rest[m] == a[i + 1 + m]);
    }
    lemma_first_sep_at(rest, j - i - 1);
    assert(rest.take(j - i - 1) =~= a.subrange(i + 1, j));
    let t = a.take(i);
    let b = a.subrange(i + 1, j);
    let joined = t + seq![seq![':', ':']] + b;
    assert forall|m: int| 0 <= m < joined.len() && m != i implies !is_sep(#[trigger] joined[m]) by {
        if m < i {
            assert(joined[m] == a[m]);
        } else {
            assert(joined[m] == a[m]);
        }
    }
    assert(joined[i] == seq![':', ':']);
    lemma_split_one_separator(joined, i);
    assert(joined.take(i) =~= t);
    assert(joined.skip(i + 1) =~= b);
}

/// True when the string is the separator token.
pub fn is_separator(s: &String) -> (r: bool)
    ensures
        r == is_sep(s@),
{
    let t = s.as_str();
    if t.unicode_len() != 2 {
        return false;
    }
    let a = t.get_char(0);
    let b = t.get_char(1);
    if a == ':' && b == ':' {
        assert(s@ =~= seq![':', ':']);
        true
    } else {
        false
    }
}

/// Splits `args[start..]` as `split_spec` says.
fn split_from(args: &Vec<String>, start: usize) -> (r: ArgumentPartition)
    requires
        start <= args.len(),
    ensures
        r@ == split_spec(args.deep_view().skip(start as int)),
{
    let ghost a = args.deep_view().skip(start as int);
    let mut tool_args: Vec<String> = Vec::new();
    let mut i: usize = start;
    let mut found = false;
    while i < args.len()
        invariant_except_break
            !found,
        invariant
            start <= i <= args.len(),
            a == args.deep_view().skip(start as int),
            a.len() == args.len() - start,
            tool_args.deep_view() =~= a.take(i - start),
            forall|j: int| 0 <= j < i - start ==> !is_sep(#[trigger] a[j]),
        ensures
            start <= i <= args.len(),
            a.len() == args.len() - start,
            tool_args.deep_view() =~= a.take(i - start),
            forall|j: int| 0 <= j < i - start ==> !is_sep(#[trigger] a[j]),
            found ==> i < args.len() && is_sep(a[i - start]),
            !found ==> i == args.len(),
        decreases args.len() - i,
    {
        assert(a[i - start] == args@[i as int]@);
        if is_separator(&args[i]) {
            found = true;
            break;
        }
        let ghost before = tool_args.deep_view();
        tool_args.push(args[i].clone());
        assert(tool_args.deep_view() =~= before.push(a[i - start]));
        i = i + 1;
    }
    proof {
        lemma_first_sep_at(a, i - start);
    }
    if !found {
        assert(a.take(i - start) =~= a);
        return ArgumentPartition { tool_args: Vec::new(), build_args: tool_args };
    }
    let ghost k = i - start;
    let ghost rest = a.skip(k + 1);
    i = i + 1;
    let mut build_args: Vec<String> = Vec::new();
    while i < args.len()
        invariant
            start + k + 1 <= i <= args.len(),
            a == args.deep_view().skip(start as int),
            a.len() == args.len() - start,
            rest == a.skip(k + 1),
            0 <= k < a.len(),
            build_args.deep_view() =~= rest.take(i - start - k - 1),
            forall|j: int| 0 <= j < i - start - k - 1 ==> !is_sep(#[trigger] rest[j]),
        ensures
            start + k + 1 <= i <= args.len(),
            build_args.deep_view() =~= rest.take(i - start - k - 1),
            forall|j: int| 0 <= j < i - start - k - 1 ==> !is_sep(#[trigger] rest[j]),
            i == args.len() || is_sep(rest[i - start - k - 1]),
        decreases args.len() - i,
    {
        assert(rest[i - start - k - 1] == args@[i as int]@);
        if is_separator(&args[i]) {
            break;
        }
        let ghost before = build_args.deep_view();
        build_args.push(args[i].clone());
        assert(build_args.deep_view() =~= before.push(rest[i - start - k - 1]));
        i = i + 1;
    }
    proof {
        lemma_first_sep_at(rest, i - start - k - 1);
    }
    ArgumentPartition { tool_args, build_args }
}

/// Splits an argument list on its first separator token.
pub fn split_args(args: &Vec<String>) -> (r: ArgumentPartition)
    ensures
        r@ == split_spec(args.deep_view()),
{
    let r = split_from(args, 0);
    assert(args.deep_view().skip(0) =~= args.deep_view());
    r
}

/// Reads the arguments that follow the program name: the first is the
/// caller's token, which must be there and is dropped; the rest are split on
/// their first separator.
pub fn parse_invocation(args: &Vec<String>) -> (r: Result<ArgumentPartition, WrapError>)
    ensures
        args.len() == 0 <==> r is Err,
        r matches Err(e) ==> e@ == ErrorView::Invocation,
        r matches Ok(p) ==> p@ == split_spec(args.deep_view().skip(1)),
{
    if args.len() == 0 {
        Err(WrapError::Invocation)
    } else {
        Ok(split_from(args, 1))
    }
}

} // verus!
