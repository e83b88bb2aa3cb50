//! Structured server addresses parsed from `"host:port"` descriptors.
//!
//! A descriptor is split on `:`; the first segment is the host (any
//! string, possibly empty — only structural validity is checked), the
//! second must be a decimal unsigned 16-bit port, and a third segment
//! is a hard parse error.

use vstd::prelude::*;

verus! {

/// Why a server descriptor failed to parse.
#[derive(Clone, Copy, Debug, PartialEq, Eq, Structural)]
pub enum AddressParseError {
    /// No port segment, or a port that is not a decimal 16-bit number.
    Invalid,
    /// A well-formed `"host:port"` followed by extraneous data.
    Extraneous,
}

/// A parsed server address.  Immutable once constructed; produced only
/// by [`ServerAddress::parse`].
#[derive(Clone, Debug)]
pub struct ServerAddress {
    pub host: String,
    pub port: u16,
}

/// One configured server: its address and the path of the certificate
/// to pin for it.  Consumed by one connection attempt.
#[derive(Clone, Debug)]
pub struct Server {
    pub server_address: ServerAddress,
    pub certificate_path: String,
}

/// Whether a character is a decimal digit.
pub open spec fn is_digit_char(c: char) -> bool {
    48 <= c as u32 && c as u32 <= 57
}

/// The numeric value of a decimal digit character.
pub open spec fn digit_value(c: char) -> int {
    c as u32 - 48
}

/// Whether every character of `s` is a decimal digit.
pub open spec fn all_digits(s: Seq<char>) -> bool {
    forall|i: int| 0 <= i < s.len() ==> is_digit_char(s[i])
}

/// The value of `s` read as a decimal number, most significant digit
/// first.
pub open spec fn dec_value(s: Seq<char>) -> int
    decreases s.len(),
{
    if s.len() == 0 {
        0
    } else {
        dec_value(s.drop_last()) * 10 + digit_value(s.last())
    }
}

/// Whether `s` is a valid port segment: nonempty, all digits, and
/// within 16 bits.
pub open spec fn port_ok(s: Seq<char>) -> bool {
    &&& s.len() > 0
    &&& all_digits(s)
    &&& dec_value(s) <= 65535
}

/// Whether `i` is the position of the only colon of `s` and what
/// follows it is a valid port segment.
pub open spec fn split_ok(s: Seq<char>, i: int) -> bool {
    &&& 0 <= i < s.len()
    &&& s[i] == ':'
    &&& forall|j: int| 0 <= j < s.len() && s[j] == ':' ==> j == i
    &&& port_ok(s.subrange(i + 1, s.len() as int))
}

/// Whether `s` is a valid `"host:port"` descriptor: exactly one colon,
/// followed by a valid port segment.
pub open spec fn addr_ok(s: Seq<char>) -> bool {
    exists|i: int| split_ok(s, i)
}

/// Whether `s` is a well-formed `"host:port"` followed by extraneous
/// data: its first two colons delimit a valid port segment.
pub open spec fn extraneous(s: Seq<char>) -> bool {
    exists|i: int, k: int|
        {
            &&& 0 <= i < k < s.len()
            &&& s[i] == ':'
            &&& s[k] == ':'
            &&& forall|j: int| 0 <= j < k && s[j] == ':' ==> j == i
            &&& port_ok(s.subrange(i + 1, k))
        }
}

/// A decimal reading of digits is never negative.
proof fn lemma_dec_value_nonneg(s: Seq<char>)
    requires
        all_digits(s),
    ensures
        dec_value(s) >= 0,
    decreases s.len(),
{
    if s.len() > 0 {
        assert(all_digits(s.drop_last()));
        lemma_dec_value_nonneg(s.drop_last());
    }
}

/// Reading more digits never decreases the decimal value.
proof fn lemma_dec_value_prefix(s: Seq<char>, n: int)
    requires
        all_digits(s),
        0 <= n <= s.len(),
    ensures
        dec_value(s.subrange(0, n)) <= dec_value(s),
    decreases s.len(),
{
    if n == s.len() {
        assert(s.subrange(0, n) =~= s);
    } else {
        let s0 = s.drop_last();
        assert(all_digits(s0));
        assert(s.subrange(0, n) =~= s0.subrange(0, n));
        lemma_dec_value_prefix(s0, n);
        lemma_dec_value_nonneg(s0);
    }
}

impl ServerAddress {
    /// Parse a `"host:port"` descriptor.
    ///
    /// Succeeds exactly on descriptors with one colon whose tail is a
    /// decimal 16-bit port; the host is everything before the colon
    /// and may be empty.  A second colon after a well-formed port
    /// segment is reported as [`AddressParseError::Extraneous`], every
    /// other failure as [`AddressParseError::Invalid`].
    pub fn parse(data: &str) -> (r: Result<ServerAddress, AddressParseError>)
        ensures
            r is Ok <==> addr_ok(data@),
            r is Ok ==> forall|i: int|
                split_ok(data@, i) ==> {
                    &&& r->Ok_0.host@ == data@.subrange(0, i)
                    &&& r->Ok_0.port == dec_value(data@.subrange(i + 1, data@.len() as int))
                },
            r is Err ==> ((r->Err_0 == AddressParseError::Extraneous) <==> extraneous(data@)),
    {
        let n: usize = data.unicode_len();

        // Position of the first colon, if any.
        let mut i: usize = 0;
        while i < n && data.get_char(i) != ':'
            invariant
                0 <= i <= n,
                n == data@.len(),
                forall|j: int| 0 <= j < i ==> data@[j] != ':',
            decreases n - i,
        {
            i = i + 1;
        }
        if i == n {
            // No colon at all: no port segment.
            assert(!addr_ok(data@));
            assert(!extraneous(data@));
            return Err(AddressParseError::Invalid);
        }
        let c1: usize = i;

        // Position of a second colon, if any.
        let mut k: usize = c1 + 1;
        while k < n && data.get_char(k) != ':'
            invariant
                c1 < k <= n,
                n == data@.len(),
                data@[c1 as int] == ':',
                forall|j: int| 0 <= j < c1 ==> data@[j] != ':',
                forall|j: int| c1 < j < k ==> data@[j] != ':',
            decreases n - k,
        {
            k = k + 1;
        }
        let second: Option<usize> = if k < n {
            Some(k)
        } else {
            None
        };
        let seg_end: usize = k;
        let ghost seg = data@.subrange(c1 + 1, seg_end as int);

        // The port segment lies between the first colon and the second
        // colon (or the end of the descriptor).
        if c1 + 1 == seg_end {
            // Empty port segment.
            proof {
                assert(!port_ok(seg));
                reject_with_bad_segment(data@, c1 as int, seg_end as int, second is Some);
            }
            return Err(AddressParseError::Invalid);
        }

        // Read the port segment as a decimal number.
        let mut val: u32 = 0;
        let mut j: usize = c1 + 1;
        while j < seg_end
            invariant
                c1 + 1 <= j <= seg_end <= n,
                n == data@.len(),
                seg == data@.subrange(c1 + 1, seg_end as int),
                data@[c1 as int] == ':',
                forall|j0: int| 0 <= j0 < c1 ==> data@[j0] != ':',
                forall|j0: int| c1 < j0 < seg_end ==> data@[j0] != ':',
                second is Some ==> seg_end < n && data@[seg_end as int] == ':',
                second is None ==> seg_end == n,
                val <= 65535,
                all_digits(data@.subrange(c1 + 1, j as int)),
                val == dec_value(data@.subrange(c1 + 1, j as int)),
            decreases seg_end - j,
        {
            let c = data.get_char(j);
            let ghost pre = data@.subrange(c1 + 1, j as int);
            let ghost post = data@.subrange(c1 + 1, j + 1 as int);
            proof {
                assert(post.drop_last() =~= pre);
                assert(post.last() == data@[j as int]);
            }
            if !(c >= '0' && c <= '9') {
                // A non-digit in the port segment.
                assert(!all_digits(seg)) by {
                    assert(seg[j - (c1 + 1)] == data@[j as int]);
                }
                assert(!port_ok(seg));
                proof {
                    reject_with_bad_segment(data@, c1 as int, seg_end as int, second is Some);
                }
                return Err(AddressParseError::Invalid);
            }
            let d: u32 = (c as u32) - 48;
            val = val * 10 + d;
            j = j + 1;
            if val > 65535 {
                // The segment overflows 16 bits; reading further
                // digits can only increase it.
                assert(!port_ok(seg)) by {
                    if all_digits(seg) {
                        lemma_dec_value_prefix(seg, j - (c1 + 1));
                        assert(seg.subrange(0, j - (c1 + 1)) =~= data@.subrange(
                            c1 + 1,
                            j as int,
                        ));
                    } else {
                        assert(!port_ok(seg));
                    }
                }
                proof {
                    reject_with_bad_segment(data@, c1 as int, seg_end as int, second is Some);
                }
                return Err(AddressParseError::Invalid);
            }
        }
        assert(data@.subrange(c1 + 1, j as int) =~= seg);
        assert(port_ok(seg));

        if second.is_some() {
            // A valid port followed by a second colon: extraneous data.
            assert(extraneous(data@)) by {
                assert(data@[seg_end as int] == ':');
                assert(forall|j0: int| 0 <= j0 < seg_end && data@[j0] == ':' ==> j0 == c1);
            }
            assert(!addr_ok(data@)) by {
                if addr_ok(data@) {
                    let i0 = choose|i0: int| split_ok(data@, i0);
                    assert(data@[c1 as int] == ':' && data@[seg_end as int] == ':');
                }
            }
            return Err(AddressParseError::Extraneous);
        }

        // Exactly one colon and a valid port segment.
        assert(seg_end == n);
        assert(split_ok(data@, c1 as int)) by {
            assert(data@.subrange(c1 + 1, data@.len() as int) =~= seg);
        }
        let host_str = data.substring_char(0, c1);
        let host = String::from_str(host_str);
        let port: u16 = val as u16;
        let r = ServerAddress { host, port };
        proof {
            assert(forall|i0: int| split_ok(data@, i0) ==> i0 == c1);
            assert(r.host@ == data@.subrange(0, c1 as int));
        }
        Ok(r)
    }
}

/// When the segment between the first colon `c1` and `seg_end` (the
/// second colon if `two`, otherwise the end) is not a valid port, the
/// descriptor is neither a valid address nor extraneous data.
proof fn reject_with_bad_segment(s: Seq<char>, c1: int, seg_end: int, two: bool)
    requires
        0 <= c1 < s.len(),
        s[c1] == ':',
        forall|j: int| 0 <= j < c1 ==> s[j] != ':',
        forall|j: int| c1 < j < seg_end ==> s[j] != ':',
        c1 < seg_end <= s.len(),
        two ==> seg_end < s.len() && s[seg_end] == ':',
        !two ==> seg_end == s.len(),
        !port_ok(s.subrange(c1 + 1, seg_end)),
    ensures
        !addr_ok(s),
        !extraneous(s),
{
    if addr_ok(s) {
        let i0 = choose|i0: int| split_ok(s, i0);
        assert(i0 == c1);
        if two {
            assert(s[seg_end] == ':');
            assert(false);
        } else {
            assert(s.subrange(i0 + 1, s.len() as int) =~= s.subrange(c1 + 1, seg_end));
        }
    }
    if extraneous(s) {
        let (i0, k0) = choose|i0: int, k0: int|
            {
                &&& 0 <= i0 < k0 < s.len()
                &&& s[i0] == ':'
                &&& s[k0] == ':'
                &&& forall|j: int| 0 <= j < k0 && s[j] == ':' ==> j == i0
                &&& port_ok(s.subrange(i0 + 1, k0))
            };
        assert(i0 == c1);
        assert(k0 >= seg_end);
        if two {
            assert(k0 == seg_end);
            assert(false);
        } else {
            assert(false);
        }
    }
}

} // verus!
