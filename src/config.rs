use vstd::prelude::*;

use crate::filter::SimpleFilter;

verus! {

/// The filter that a suffix, a prefix and a polarity configure.
pub open spec fn simple_filter_spec(
    suffix: Option<Seq<u8>>,
    prefix: Option<Seq<u8>>,
    keep: bool,
    f: SimpleFilter,
) -> bool {
    match (suffix, prefix) {
        (None, None) => f is KeepAll,
        (None, Some(p)) => f matches SimpleFilter::Prefix(v, k) && v@ == p && k == keep,
        (Some(s), None) => f matches SimpleFilter::Suffix(v, k) && v@ == s && k == keep,
        (Some(s), Some(p)) => f matches SimpleFilter::SufPrefixEither(sv, pv, k) && sv@ == s
            && pv@ == p && k == keep,
    }
}

pub open spec fn opt_view(o: Option<Vec<u8>>) -> Option<Seq<u8>> {
    match o {
        Some(v) => Some(v@),
        None => None,
    }
}

/// Chooses the filter: keep everything when neither a suffix nor a prefix is
/// given, the single matcher when one is, and both matchers when both are.
pub fn simple_filter(suffix: Option<Vec<u8>>, prefix: Option<Vec<u8>>, keep: bool) -> (f:
    SimpleFilter)
    ensures
        simple_filter_spec(opt_view(suffix), opt_view(prefix), keep, f),
{
    match suffix {
        None => match prefix {
            None => SimpleFilter::KeepAll,
            Some(p) => SimpleFilter::Prefix(p, keep),
        },
        Some(s) => match prefix {
            None => SimpleFilter::Suffix(s, keep),
            Some(p) => SimpleFilter::SufPrefixEither(s, p, keep),
        },
    }
}

/// The value of a boolean setting: `true` or `false` as written, and
/// `true` when it is unset or holds anything else.
pub open spec fn flag_spec(raw: Option<Seq<u8>>) -> bool {
    match raw {
        Some(b) => b != seq![0x66u8, 0x61, 0x6c, 0x73, 0x65],
        None => true,
    }
}

/// Reads a boolean setting, `true` unless it is exactly `false`.
pub fn flag_or_true(raw: Option<Vec<u8>>) -> (r: bool)
    ensures
        r == flag_spec(opt_view(raw)),
{
    match raw {
        None => true,
        Some(b) => {
            let no: [u8; 5] = [0x66, 0x61, 0x6c, 0x73, 0x65];
            if b.len() != 5 {
                assert(b@.len() != seq![0x66u8, 0x61, 0x6c, 0x73, 0x65].len());
                return true;
            }
            let mut i: usize = 0;
            while i < 5
                invariant
                    i <= 5,
                    b@.len() == 5,
                    opt_view(raw) == Some(b@),
                    no@ == seq![0x66u8, 0x61, 0x6c, 0x73, 0x65],
                    forall|j: int| 0 <= j < i ==> b@[j] == no@[j],
                decreases 5 - i,
            {
                if b[i] != no[i] {
                    assert(b@[i as int] != no@[i as int]);
                    return true;
                }
                i = i + 1;
            }
            assert(b@ =~= no@);
            false
        },
    }
}

} // verus!
