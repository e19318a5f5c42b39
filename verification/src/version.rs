//! Three-component version values with total ordering, text rendering and
//! text parsing. The text shape is `"major.minor.patch"` in ASCII decimal.

use vstd::prelude::*;
use vstd::string::StringExecFns;
use crate::text::{
    dec_rep, dec_val, is_digits, lemma_dec_rep_digits, lemma_dec_val_dec_rep,
    lemma_split_byte_no_sep, lemma_split_byte_prefix, parse_dec_u64, split_byte, split_byte_vec,
    u64_from_dec,
};

verus! {

/// The byte `'.'`, separating the three components in version text.
pub const DOT: u8 = 46;

/// An immutable version value. Each component fits an 8-bit unsigned range.
#[derive(Debug, Clone, Copy, PartialEq, Eq, Structural, Hash)]
pub struct Version {
    pub major: u8,
    pub minor: u8,
    pub patch: u8,
}

impl Version {
    /// Strict lexicographic order on `(major, minor, patch)`.
    pub open spec fn lt_spec(a: Version, b: Version) -> bool {
        a.major < b.major || (a.major == b.major && (a.minor < b.minor || (a.minor == b.minor
            && a.patch < b.patch)))
    }

    /// Text of a version: decimal components joined by dots.
    pub open spec fn render_spec(v: Version) -> Seq<u8> {
        dec_rep(v.major as int) + seq![DOT] + dec_rep(v.minor as int) + seq![DOT] + dec_rep(
            v.patch as int,
        )
    }

    /// A dot-separated part that can stand as one version component.
    pub open spec fn valid_part(p: Seq<u8>) -> bool {
        p.len() > 0 && is_digits(p) && dec_val(p) <= 255
    }

    /// Version denoted by a byte string: exactly three dot-separated parts,
    /// each a non-empty digit run whose value fits 8 bits.
    pub open spec fn parse_spec(s: Seq<u8>) -> Option<Version> {
        let parts = split_byte(s, DOT);
        if parts.len() == 3 && Self::valid_part(parts[0]) && Self::valid_part(parts[1])
            && Self::valid_part(parts[2]) {
            Some(
                Version {
                    major: dec_val(parts[0]) as u8,
                    minor: dec_val(parts[1]) as u8,
                    patch: dec_val(parts[2]) as u8,
                },
            )
        } else {
            None
        }
    }

    pub fn new(major: u8, minor: u8, patch: u8) -> (r: Version)
        ensures
            r == (Version { major, minor, patch }),
    {
        Version { major, minor, patch }
    }

    /// Strict "comes before" comparison in the total version order.
    pub fn before(&self, other: &Version) -> (r: bool)
        ensures
            r == Self::lt_spec(*self, *other),
    {
        if self.major != other.major {
            self.major < other.major
        } else if self.minor != other.minor {
            self.minor < other.minor
        } else {
            self.patch < other.patch
        }
    }

    /// Renders the version as `"major.minor.patch"` bytes.
    pub fn render(&self) -> (r: Vec<u8>)
        ensures
            r@ == Self::render_spec(*self),
    {
        let mut out: Vec<u8> = Vec::new();
        push_dec_u8(&mut out, self.major);
        out.push(DOT);
        push_dec_u8(&mut out, self.minor);
        out.push(DOT);
        push_dec_u8(&mut out, self.patch);
        proof {
            assert(out@ =~= Self::render_spec(*self));
        }
        out
    }

    /// Parses version text, accepting exactly the strings of `parse_spec`.
    pub fn parse(s: &Vec<u8>) -> (r: Option<Version>)
        ensures
            r == Self::parse_spec(s@),
    {
        let parts = split_byte_vec(s, DOT);
        if parts.len() != 3 {
            return None;
        }
        assert(parts@[0]@ == split_byte(s@, DOT)[0]);
        assert(parts@[1]@ == split_byte(s@, DOT)[1]);
        assert(parts@[2]@ == split_byte(s@, DOT)[2]);
        let major = match parse_component(&parts[0]) {
            Some(n) => n,
            None => {
                return None;
            },
        };
        let minor = match parse_component(&parts[1]) {
            Some(n) => n,
            None => {
                return None;
            },
        };
        let patch = match parse_component(&parts[2]) {
            Some(n) => n,
            None => {
                return None;
            },
        };
        Some(Version { major, minor, patch })
    }

    /// Round trip: rendering any version and parsing the text gives the
    /// version back.
    pub proof fn lemma_parse_render_roundtrip(v: Version)
        ensures
            Self::parse_spec(Self::render_spec(v)) == Some(v),
    {
        let ma = dec_rep(v.major as int);
        let mi = dec_rep(v.minor as int);
        let pa = dec_rep(v.patch as int);
        lemma_dec_rep_digits(v.major as int);
        lemma_dec_rep_digits(v.minor as int);
        lemma_dec_rep_digits(v.patch as int);
        lemma_dec_val_dec_rep(v.major as int);
        lemma_dec_val_dec_rep(v.minor as int);
        lemma_dec_val_dec_rep(v.patch as int);
        assert(forall|i: int| 0 <= i < ma.len() ==> ma[i] != DOT);
        assert(forall|i: int| 0 <= i < mi.len() ==> mi[i] != DOT);
        assert(forall|i: int| 0 <= i < pa.len() ==> pa[i] != DOT);
        lemma_split_byte_no_sep(pa, DOT);
        lemma_split_byte_prefix(mi, pa, DOT);
        lemma_split_byte_prefix(ma, mi + seq![DOT] + pa, DOT);
        assert(Self::render_spec(v) =~= ma + seq![DOT] + (mi + seq![DOT] + pa));
        let parts = split_byte(Self::render_spec(v), DOT);
        assert(parts =~~= seq![ma] + (seq![mi] + seq![pa]));
        assert(parts[0] == ma && parts[1] == mi && parts[2] == pa);
    }
}

/// The character denoting a decimal digit value.
pub open spec fn digit_char(d: int) -> char {
    if d == 0 {
        '0'
    } else if d == 1 {
        '1'
    } else if d == 2 {
        '2'
    } else if d == 3 {
        '3'
    } else if d == 4 {
        '4'
    } else if d == 5 {
        '5'
    } else if d == 6 {
        '6'
    } else if d == 7 {
        '7'
    } else if d == 8 {
        '8'
    } else {
        '9'
    }
}

/// One-character text of a decimal digit.
fn digit_str(d: u8) -> (r: &'static str)
    requires
        d < 10,
    ensures
        r@ =~= seq![digit_char(d as int)],
{
    proof {
        reveal_strlit("0");
        reveal_strlit("1");
        reveal_strlit("2");
        reveal_strlit("3");
        reveal_strlit("4");
        reveal_strlit("5");
        reveal_strlit("6");
        reveal_strlit("7");
        reveal_strlit("8");
        reveal_strlit("9");
    }
    if d == 0 {
        "0"
    } else if d == 1 {
        "1"
    } else if d == 2 {
        "2"
    } else if d == 3 {
        "3"
    } else if d == 4 {
        "4"
    } else if d == 5 {
        "5"
    } else if d == 6 {
        "6"
    } else if d == 7 {
        "7"
    } else if d == 8 {
        "8"
    } else {
        "9"
    }
}

impl Version {
    /// The undotted three-character text of a version whose components are
    /// single digits, as patch mirror folders are named.
    pub open spec fn plain_spec(v: Version) -> Seq<char> {
        seq![
            digit_char(v.major as int),
            digit_char(v.minor as int),
            digit_char(v.patch as int),
        ]
    }

    /// Renders the undotted folder-name form, e.g. three digits.
    pub fn to_plain_string(&self) -> (r: String)
        requires
            self.major < 10,
            self.minor < 10,
            self.patch < 10,
        ensures
            r@ == Self::plain_spec(*self),
    {
        let r = String::from_str(digit_str(self.major)).concat(digit_str(self.minor)).concat(
            digit_str(self.patch),
        );
        proof {
            assert(r@ =~= Self::plain_spec(*self));
        }
        r
    }
}

/// Parses one version component: a non-empty digit run valued at most 255.
fn parse_component(p: &Vec<u8>) -> (r: Option<u8>)
    ensures
        match r {
            Some(n) => Version::valid_part(p@) && n == dec_val(p@),
            None => !Version::valid_part(p@),
        },
{
    match u64_from_dec(p) {
        Some(n) => {
            proof {
                assert(parse_dec_u64(p@) == Some(n));
                crate::text::lemma_dec_val_nonneg(p@);
                assert(n == dec_val(p@));
            }
            if n <= 255 {
                Some(n as u8)
            } else {
                None
            }
        },
        None => None,
    }
}

/// Appends the decimal digits of `n` to `out`.
fn push_dec_u8(out: &mut Vec<u8>, n: u8)
    ensures
        final(out)@ == old(out)@ + dec_rep(n as int),
{
    let ghost ni = n as int;
    if n >= 100 {
        out.push(48 + n / 100);
        out.push(48 + (n / 10) % 10);
        out.push(48 + n % 10);
        proof {
            vstd::arithmetic::div_mod::lemma_div_denominator(ni, 10, 10);
            assert(ni / 10 / 10 == ni / 100);
            assert(ni / 10 >= 10);
            assert(ni / 100 < 10);
            assert(dec_rep(ni / 100) =~= seq![(48 + ni / 100) as u8]);
            assert(dec_rep(ni / 10) == dec_rep(ni / 10 / 10).push((48 + (ni / 10) % 10) as u8));
            assert(dec_rep(ni) == dec_rep(ni / 10).push((48 + ni % 10) as u8));
            assert(dec_rep(ni) =~= seq![
                (48 + ni / 100) as u8,
                (48 + (ni / 10) % 10) as u8,
                (48 + ni % 10) as u8,
            ]);
            assert(final(out)@ =~= old(out)@ + dec_rep(ni));
        }
    } else if n >= 10 {
        out.push(48 + n / 10);
        out.push(48 + n % 10);
        proof {
            assert(ni / 10 < 10);
            assert(dec_rep(ni / 10) =~= seq![(48 + ni / 10) as u8]);
            assert(dec_rep(ni) == dec_rep(ni / 10).push((48 + ni % 10) as u8));
            assert(dec_rep(ni) =~= seq![(48 + ni / 10) as u8, (48 + ni % 10) as u8]);
            assert(final(out)@ =~= old(out)@ + dec_rep(ni));
        }
    } else {
        out.push(48 + n);
        proof {
            assert(dec_rep(ni) =~= seq![(48 + ni) as u8]);
            assert(final(out)@ =~= old(out)@ + dec_rep(ni));
        }
    }
}

} // verus!
