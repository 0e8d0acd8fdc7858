use vstd::prelude::*;

use crate::header::Header;

verus! {

/// The outcome of a filter: keep the entry or ignore it.
#[derive(Debug, Clone, Copy, PartialEq, Eq, Structural)]
pub enum FilterResult {
    Keep,
    Ignore,
}

impl FilterResult {
    /// The bit that stands for the outcome: `Keep` is 0 and `Ignore` is 1.
    pub open spec fn bit(self) -> u8 {
        match self {
            FilterResult::Keep => 0,
            FilterResult::Ignore => 1,
        }
    }

    pub open spec fn from_bit(b: u8) -> FilterResult {
        if b == 0 {
            FilterResult::Keep
        } else {
            FilterResult::Ignore
        }
    }

    /// `Ignore` only when both are `Ignore` (the bitwise and of the bits).
    pub open spec fn and_spec(self, other: FilterResult) -> FilterResult {
        if self == FilterResult::Ignore && other == FilterResult::Ignore {
            FilterResult::Ignore
        } else {
            FilterResult::Keep
        }
    }

    /// `Keep` only when both are `Keep` (the bitwise or of the bits).
    pub open spec fn or_spec(self, other: FilterResult) -> FilterResult {
        if self == FilterResult::Keep && other == FilterResult::Keep {
            FilterResult::Keep
        } else {
            FilterResult::Ignore
        }
    }

    fn to_bit(self) -> (r: u8)
        ensures
            r == self.bit(),
    {
        match self {
            FilterResult::Keep => 0,
            FilterResult::Ignore => 1,
        }
    }

    fn of_bit(b: u8) -> (r: FilterResult)
        ensures
            r == FilterResult::from_bit(b),
    {
        if b == 0 {
            FilterResult::Keep
        } else {
            FilterResult::Ignore
        }
    }

    /// Combines two outcomes by the and of their bits.
    pub fn and(self, other: Self) -> (r: Self)
        ensures
            r == self.and_spec(other),
    {
        let s: u8 = self.to_bit();
        let o: u8 = other.to_bit();
        let a: u8 = s & o & 1;
        assert((s & o & 1) == 0 <==> !(s == 1 && o == 1)) by (bit_vector)
            requires s <= 1, o <= 1;
        Self::of_bit(a)
    }

    /// Combines two outcomes by the or of their bits.
    pub fn or(self, other: Self) -> (r: Self)
        ensures
            r == self.or_spec(other),
    {
        let s: u8 = self.to_bit();
        let o: u8 = other.to_bit();
        let a: u8 = (s | o) & 1;
        assert(((s | o) & 1) == 0 <==> (s == 0 && o == 0)) by (bit_vector)
            requires s <= 1, o <= 1;
        Self::of_bit(a)
    }
}

/// The table of both combinators over every pair of outcomes.
pub proof fn lemma_combinator_tables()
    ensures
        FilterResult::Keep.and_spec(FilterResult::Keep) == FilterResult::Keep,
        FilterResult::Keep.and_spec(FilterResult::Ignore) == FilterResult::Keep,
        FilterResult::Ignore.and_spec(FilterResult::Keep) == FilterResult::Keep,
        FilterResult::Ignore.and_spec(FilterResult::Ignore) == FilterResult::Ignore,
        FilterResult::Keep.or_spec(FilterResult::Keep) == FilterResult::Keep,
        FilterResult::Keep.or_spec(FilterResult::Ignore) == FilterResult::Ignore,
        FilterResult::Ignore.or_spec(FilterResult::Keep) == FilterResult::Ignore,
        FilterResult::Ignore.or_spec(FilterResult::Ignore) == FilterResult::Ignore,
{
}

/// `p` ends with `s`.
pub open spec fn ends_with(p: Seq<u8>, s: Seq<u8>) -> bool {
    s.len() <= p.len() && p.subrange(p.len() - s.len(), p.len() as int) == s
}

/// `p` starts with `s`.
pub open spec fn starts_with(p: Seq<u8>, s: Seq<u8>) -> bool {
    s.len() <= p.len() && p.subrange(0, s.len() as int) == s
}

/// `Ignore` exactly when whether the pattern was found differs from `keep`.
pub open spec fn polarity_result(found: bool, keep: bool) -> FilterResult {
    if found != keep {
        FilterResult::Ignore
    } else {
        FilterResult::Keep
    }
}

pub open spec fn suffix_result(suffix: Seq<u8>, keep: bool, path: Seq<u8>) -> FilterResult {
    polarity_result(ends_with(path, suffix), keep)
}

pub open spec fn prefix_result(prefix: Seq<u8>, keep: bool, path: Seq<u8>) -> FilterResult {
    polarity_result(starts_with(path, prefix), keep)
}

fn slice_ends_with(p: &[u8], s: &[u8]) -> (r: bool)
    ensures
        r == ends_with(p@, s@),
{
    if s.len() > p.len() {
        return false;
    }
    let off: usize = p.len() - s.len();
    let mut i: usize = 0;
    while i < s.len()
        invariant
            i <= s.len(),
            off + s.len() == p.len(),
            forall|j: int| 0 <= j < i ==> p@[off + j] == s@[j],
        decreases s.len() - i,
    {
        if p[off + i] != s[i] {
            assert(p@.subrange(off as int, p@.len() as int)[i as int] != s@[i as int]);
            return false;
        }
        i = i + 1;
    }
    assert(p@.subrange(off as int, p@.len() as int) =~= s@);
    true
}

fn slice_starts_with(p: &[u8], s: &[u8]) -> (r: bool)
    ensures
        r == starts_with(p@, s@),
{
    if s.len() > p.len() {
        return false;
    }
    let mut i: usize = 0;
    while i < s.len()
        invariant
            i <= s.len(),
            s.len() <= p.len(),
            forall|j: int| 0 <= j < i ==> p@[j] == s@[j],
        decreases s.len() - i,
    {
        if p[i] != s[i] {
            assert(p@.subrange(0, s@.len() as int)[i as int] != s@[i as int]);
            return false;
        }
        i = i + 1;
    }
    assert(p@.subrange(0, s@.len() as int) =~= s@);
    true
}

fn polarity(found: bool, keep: bool) -> (r: FilterResult)
    ensures
        r == polarity_result(found, keep),
{
    let ignore: bool = found ^ keep;
    match ignore {
        true => FilterResult::Ignore,
        false => FilterResult::Keep,
    }
}

/// The filter that keeps every entry.
pub fn nop_filter(_hdr: &Header) -> (r: FilterResult)
    ensures
        r == FilterResult::Keep,
{
    FilterResult::Keep
}

/// Combines two header filters with `FilterResult::and`.
pub fn filter_and<F, G>(f: F, g: G) -> (h: impl Fn(&Header) -> FilterResult)
    where
        F: Fn(&Header) -> FilterResult,
        G: Fn(&Header) -> FilterResult,
    requires
        forall|x: &Header| #[trigger] f.requires((x,)),
        forall|x: &Header| #[trigger] g.requires((x,)),
    ensures
        forall|x: &Header| #[trigger] h.requires((x,)),
        forall|x: &Header, r: FilterResult|
            #[trigger] h.ensures((x,), r) ==> exists|a: FilterResult, b: FilterResult|
                f.ensures((x,), a) && g.ensures((x,), b) && r == a.and_spec(b),
{
    move |hdr: &Header| -> (r: FilterResult)
        ensures
            exists|a: FilterResult, b: FilterResult|
                f.ensures((hdr,), a) && g.ensures((hdr,), b) && r == a.and_spec(b),
    {
        let fr: FilterResult = f(hdr);
        let gr: FilterResult = g(hdr);
        fr.and(gr)
    }
}

/// Combines two header filters with `FilterResult::or`.
pub fn filter_or<F, G>(f: F, g: G) -> (h: impl Fn(&Header) -> FilterResult)
    where
        F: Fn(&Header) -> FilterResult,
        G: Fn(&Header) -> FilterResult,
    requires
        forall|x: &Header| #[trigger] f.requires((x,)),
        forall|x: &Header| #[trigger] g.requires((x,)),
    ensures
        forall|x: &Header| #[trigger] h.requires((x,)),
        forall|x: &Header, r: FilterResult|
            #[trigger] h.ensures((x,), r) ==> exists|a: FilterResult, b: FilterResult|
                f.ensures((x,), a) && g.ensures((x,), b) && r == a.or_spec(b),
{
    move |hdr: &Header| -> (r: FilterResult)
        ensures
            exists|a: FilterResult, b: FilterResult|
                f.ensures((hdr,), a) && g.ensures((hdr,), b) && r == a.or_spec(b),
    {
        let fr: FilterResult = f(hdr);
        let gr: FilterResult = g(hdr);
        fr.or(gr)
    }
}

/// Combines two path filters with `FilterResult::or`.
pub fn path_filter_or<F, G>(f: F, g: G) -> (h: impl Fn(&[u8]) -> FilterResult)
    where
        F: Fn(&[u8]) -> FilterResult,
        G: Fn(&[u8]) -> FilterResult,
    requires
        forall|x: &[u8]| #[trigger] f.requires((x,)),
        forall|x: &[u8]| #[trigger] g.requires((x,)),
    ensures
        forall|x: &[u8]| #[trigger] h.requires((x,)),
        forall|x: &[u8], r: FilterResult|
            #[trigger] h.ensures((x,), r) ==> exists|a: FilterResult, b: FilterResult|
                f.ensures((x,), a) && g.ensures((x,), b) && r == a.or_spec(b),
{
    move |val: &[u8]| -> (r: FilterResult)
        ensures
            exists|a: FilterResult, b: FilterResult|
                f.ensures((val,), a) && g.ensures((val,), b) && r == a.or_spec(b),
    {
        let fr: FilterResult = f(val);
        let gr: FilterResult = g(val);
        fr.or(gr)
    }
}

/// Lifts a filter on path bytes to a filter on headers, applied to `path_name`.
pub fn path_bytes_filter_new<F>(pfilt: F) -> (h: impl Fn(&Header) -> FilterResult)
    where
        F: Fn(&[u8]) -> FilterResult,
    requires
        forall|x: &[u8]| #[trigger] pfilt.requires((x,)),
    ensures
        forall|x: &Header| #[trigger] h.requires((x,)),
        forall|x: &Header, r: FilterResult|
            #[trigger] h.ensures((x,), r) ==> exists|p: &[u8]|
                p@ == x.path_name@ && #[trigger] pfilt.ensures((p,), r),
{
    move |hdr: &Header| -> (r: FilterResult)
        ensures
            exists|p: &[u8]| p@ == hdr.path_name@ && #[trigger] pfilt.ensures((p,), r),
    {
        let path_bytes: &[u8] = hdr.path_name.as_slice();
        pfilt(path_bytes)
    }
}

/// A path filter on `suffix`: with `keep` the paths that end with it are kept
/// and the others ignored; without `keep` the reverse.
pub fn suffix_filter_new(suffix: Vec<u8>, keep: bool) -> (h: impl Fn(&[u8]) -> FilterResult)
    ensures
        forall|x: &[u8]| #[trigger] h.requires((x,)),
        forall|x: &[u8], r: FilterResult|
            #[trigger] h.ensures((x,), r) ==> r == suffix_result(suffix@, keep, x@),
{
    let ghost sv = suffix@;
    move |path_name: &[u8]| -> (r: FilterResult)
        ensures
            r == suffix_result(sv, keep, path_name@),
    {
        let found: bool = slice_ends_with(path_name, suffix.as_slice());
        polarity(found, keep)
    }
}

/// A path filter on `prefix`: with `keep` the paths that start with it are
/// kept and the others ignored; without `keep` the reverse.
pub fn prefix_filter_new(prefix: Vec<u8>, keep: bool) -> (h: impl Fn(&[u8]) -> FilterResult)
    ensures
        forall|x: &[u8]| #[trigger] h.requires((x,)),
        forall|x: &[u8], r: FilterResult|
            #[trigger] h.ensures((x,), r) ==> r == prefix_result(prefix@, keep, x@),
{
    let ghost pv = prefix@;
    move |path_name: &[u8]| -> (r: FilterResult)
        ensures
            r == prefix_result(pv, keep, path_name@),
    {
        let found: bool = slice_starts_with(path_name, prefix.as_slice());
        polarity(found, keep)
    }
}

/// The filter configuration: keep everything, or match the path on a suffix,
/// a prefix, or both, with one polarity each time.
pub enum SimpleFilter {
    KeepAll,
    Suffix(Vec<u8>, bool),
    Prefix(Vec<u8>, bool),
    SufPrefixEither(Vec<u8>, Vec<u8>, bool),
}

impl SimpleFilter {
    /// What the configured filter decides for `path`.
    pub open spec fn result_spec(&self, path: Seq<u8>) -> FilterResult {
        match self {
            SimpleFilter::KeepAll => FilterResult::Keep,
            SimpleFilter::Suffix(v, keep) => suffix_result(v@, *keep, path),
            SimpleFilter::Prefix(v, keep) => prefix_result(v@, *keep, path),
            SimpleFilter::SufPrefixEither(sv, pv, keep) => suffix_result(sv@, *keep, path).or_spec(
                prefix_result(pv@, *keep, path),
            ),
        }
    }

    /// Decides for `path`, as the configured filter does.
    pub fn path_result(&self, path: &[u8]) -> (r: FilterResult)
        ensures
            r == self.result_spec(path@),
    {
        match self {
            SimpleFilter::KeepAll => FilterResult::Keep,
            SimpleFilter::Suffix(v, keep) => polarity(slice_ends_with(path, v.as_slice()), *keep),
            SimpleFilter::Prefix(v, keep) => polarity(slice_starts_with(path, v.as_slice()), *keep),
            SimpleFilter::SufPrefixEither(sv, pv, keep) => {
                let sr: FilterResult = polarity(slice_ends_with(path, sv.as_slice()), *keep);
                let pr: FilterResult = polarity(slice_starts_with(path, pv.as_slice()), *keep);
                sr.or(pr)
            },
        }
    }

    /// The configured filter as a filter on path bytes.
    pub fn into_path_filter(self) -> (h: impl Fn(&[u8]) -> FilterResult)
        ensures
            forall|x: &[u8]| #[trigger] h.requires((x,)),
            forall|x: &[u8], r: FilterResult|
                #[trigger] h.ensures((x,), r) ==> r == self.result_spec(x@),
    {
        let ghost cfg = self;
        move |path_name: &[u8]| -> (r: FilterResult)
            ensures
                r == cfg.result_spec(path_name@),
        {
            self.path_result(path_name)
        }
    }

    /// The configured filter as a filter on headers, applied to `path_name`.
    pub fn into_filter(self) -> (h: impl Fn(&Header) -> FilterResult)
        ensures
            forall|x: &Header| #[trigger] h.requires((x,)),
            forall|x: &Header, r: FilterResult|
                #[trigger] h.ensures((x,), r) ==> r == self.result_spec(x.path_name@),
    {
        let ghost cfg = self;
        let bpf = self.into_path_filter();
        let h = path_bytes_filter_new(bpf);
        assert forall|x: &Header, r: FilterResult| #[trigger] h.ensures((x,), r) implies r
            == cfg.result_spec(x.path_name@) by {
            let p: &[u8] = choose|p: &[u8]| p@ == x.path_name@ && #[trigger] bpf.ensures((p,), r);
        };
        h
    }
}

/// With a positive polarity a suffix filter keeps exactly the paths that end
/// with the suffix; with a negative one exactly those that do not. The same
/// holds of a prefix filter and the paths that start with the prefix.
pub proof fn lemma_polarity(pattern: Seq<u8>, path: Seq<u8>)
    ensures
        suffix_result(pattern, true, path) == FilterResult::Keep <==> ends_with(path, pattern),
        suffix_result(pattern, false, path) == FilterResult::Keep <==> !ends_with(path, pattern),
        prefix_result(pattern, true, path) == FilterResult::Keep <==> starts_with(path, pattern),
        prefix_result(pattern, false, path) == FilterResult::Keep <==> !starts_with(path, pattern),
{
}

} // verus!
