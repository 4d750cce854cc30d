//! The memory sampler's parsing half: pull the virtual-memory size, in kB,
//! out of the process-status text. The field is the first occurrence of the
//! label `VmSize:` followed by optional whitespace, one or more decimal
//! digits, and the literal ` kB`; anything else means the host's status
//! source is unrecognizable and the benchmark cannot proceed.

use vstd::prelude::*;
use vstd::string::StringSliceAdditionalSpecFns;

verus! {

/// ASCII whitespace as the status field admits it: space, tab, line feed,
/// vertical tab, form feed, carriage return.
pub open spec fn is_ws_byte(b: u8) -> bool {
    b == 32 || (9 <= b && b <= 13)
}

/// ASCII decimal digits.
pub open spec fn is_digit_byte(b: u8) -> bool {
    48 <= b && b <= 57
}

/// The bytes of the field label, `VmSize:`.
pub open spec fn vm_marker() -> Seq<u8> {
    seq![86u8, 109u8, 83u8, 105u8, 122u8, 101u8, 58u8]
}

/// The first index at or after `i` holding no whitespace byte.
pub open spec fn skip_ws(s: Seq<u8>, i: int) -> int
    decreases s.len() - i,
{
    if 0 <= i && i < s.len() && is_ws_byte(s[i]) {
        skip_ws(s, i + 1)
    } else {
        i
    }
}

/// The first index at or after `i` holding no digit byte.
pub open spec fn skip_digits(s: Seq<u8>, i: int) -> int
    decreases s.len() - i,
{
    if 0 <= i && i < s.len() && is_digit_byte(s[i]) {
        skip_digits(s, i + 1)
    } else {
        i
    }
}

/// The decimal value of the digit run `s[i..j)`.
pub open spec fn digits_val(s: Seq<u8>, i: int, j: int) -> nat
    decreases j - i,
{
    if j <= i {
        0
    } else {
        (digits_val(s, i, j - 1) * 10 + (s[j - 1] - 48)) as nat
    }
}

/// Whether the whole field pattern matches starting at `i`: the label, then
/// optional whitespace, then at least one digit, then ` kB`.
pub open spec fn match_at(s: Seq<u8>, i: int) -> bool {
    &&& 0 <= i
    &&& i + 7 <= s.len()
    &&& s.subrange(i, i + 7) == vm_marker()
    &&& ({
        let j = skip_ws(s, i + 7);
        let k = skip_digits(s, j);
        &&& k > j
        &&& k + 3 <= s.len()
        &&& s[k] == 32
        &&& s[k + 1] == 107
        &&& s[k + 2] == 66
    })
}

/// The first index at or after `i` where the field pattern matches, if any.
pub open spec fn find_from(s: Seq<u8>, i: int) -> Option<int>
    decreases s.len() - i,
{
    if i < 0 || i + 7 > s.len() {
        None
    } else if match_at(s, i) {
        Some(i)
    } else {
        find_from(s, i + 1)
    }
}

/// What the status text reports as the virtual-memory size in kB: the value
/// of the digit run at the first match of the field pattern, if any.
pub open spec fn vmsize_value(s: Seq<u8>) -> Option<nat> {
    match find_from(s, 0) {
        Some(i) => {
            let j = skip_ws(s, i + 7);
            let k = skip_digits(s, j);
            Some(digits_val(s, j, k))
        },
        None => None,
    }
}

fn is_ws(b: u8) -> (r: bool)
    ensures
        r == is_ws_byte(b),
{
    b == 32 || (9 <= b && b <= 13)
}

fn is_digit(b: u8) -> (r: bool)
    ensures
        r == is_digit_byte(b),
{
    48 <= b && b <= 57
}

/// Parse the virtual-memory size, in kB, out of the status text: `Some`
/// exactly when the field pattern occurs and its value fits the machine
/// word, and then the value of the first occurrence.
pub fn parse_vmsize_kb(status: &str) -> (r: Option<usize>)
    ensures
        vmsize_value(status.spec_bytes()) is None ==> r is None,
        vmsize_value(status.spec_bytes()) matches Some(v) ==> (if v <= usize::MAX {
            r matches Some(x) && x == v
        } else {
            r is None
        }),
{
    let bytes: &[u8] = status.as_bytes();
    let ghost s: Seq<u8> = status.spec_bytes();
    let n: usize = bytes.len();
    let mut i: usize = 0;
    loop
        invariant
            s == status.spec_bytes(),
            bytes@ == s,
            n == s.len(),
            i <= n,
            find_from(s, 0) == find_from(s, i as int),
        decreases n - i,
    {
        if n - i < 7 {
            proof {
                assert(find_from(s, i as int) is None);
            }
            return None;
        }
        if bytes[i] == 86 && bytes[i + 1] == 109 && bytes[i + 2] == 83 && bytes[i + 3] == 105
            && bytes[i + 4] == 122 && bytes[i + 5] == 101 && bytes[i + 6] == 58 {
            proof {
                assert(s.subrange(i as int, i as int + 7) =~= vm_marker());
            }
            let mut j: usize = i + 7;
            loop
                invariant
                    bytes@ == s,
                    n == s.len(),
                    i + 7 <= j <= n,
                    skip_ws(s, (i + 7) as int) == skip_ws(s, j as int),
                ensures
                    i + 7 <= j <= n,
                    j == skip_ws(s, (i + 7) as int),
                decreases n - j,
            {
                if j < n && is_ws(bytes[j]) {
                    proof {
                        assert(skip_ws(s, j as int) == skip_ws(s, j as int + 1));
                    }
                    j += 1;
                } else {
                    proof {
                        assert(skip_ws(s, j as int) == j as int);
                    }
                    break;
                }
            }
            let mut k: usize = j;
            let mut val: usize = 0;
            let mut over: bool = false;
            loop
                invariant
                    bytes@ == s,
                    n == s.len(),
                    j <= k <= n,
                    skip_digits(s, j as int) == skip_digits(s, k as int),
                    !over ==> val == digits_val(s, j as int, k as int),
                    over ==> digits_val(s, j as int, k as int) > usize::MAX,
                ensures
                    j <= k <= n,
                    k == skip_digits(s, j as int),
                    !over ==> val == digits_val(s, j as int, k as int),
                    over ==> digits_val(s, j as int, k as int) > usize::MAX,
                decreases n - k,
            {
                if k < n && is_digit(bytes[k]) {
                    let d: u8 = bytes[k] - 48;
                    proof {
                        assert(skip_digits(s, k as int) == skip_digits(s, k as int + 1));
                        assert(digits_val(s, j as int, k as int + 1) == digits_val(
                            s,
                            j as int,
                            k as int,
                        ) * 10 + (s[k as int] - 48));
                    }
                    if !over {
                        match val.checked_mul(10) {
                            Some(v10) => {
                                match v10.checked_add(d as usize) {
                                    Some(v2) => {
                                        val = v2;
                                    },
                                    None => {
                                        over = true;
                                    },
                                }
                            },
                            None => {
                                over = true;
                            },
                        }
                    }
                    k += 1;
                } else {
                    proof {
                        assert(skip_digits(s, k as int) == k as int);
                    }
                    break;
                }
            }
            if k > j && n - k >= 3 && bytes[k] == 32 && bytes[k + 1] == 107 && bytes[k + 2] == 66 {
                proof {
                    assert(match_at(s, i as int));
                    assert(find_from(s, i as int) == Some(i as int));
                }
                if over {
                    return None;
                } else {
                    return Some(val);
                }
            } else {
                proof {
                    assert(!match_at(s, i as int));
                    assert(find_from(s, i as int) == find_from(s, i as int + 1));
                }
                i += 1;
            }
        } else {
            proof {
                let sub = s.subrange(i as int, i as int + 7);
                assert(sub != vm_marker()) by {
                    if sub == vm_marker() {
                        assert(s[i as int] == sub[0]);
                        assert(s[i as int + 1] == sub[1]);
                        assert(s[i as int + 2] == sub[2]);
                        assert(s[i as int + 3] == sub[3]);
                        assert(s[i as int + 4] == sub[4]);
                        assert(s[i as int + 5] == sub[5]);
                        assert(s[i as int + 6] == sub[6]);
                        assert(false);
                    }
                }
                assert(!match_at(s, i as int));
                assert(find_from(s, i as int) == find_from(s, i as int + 1));
            }
            i += 1;
        }
    }
}

/// The load phase's memory-footprint estimate: the difference of the two
/// readings that bracket it, in kB, clamped at zero for a process that
/// shrank meanwhile.
pub fn mem_delta_kb(before: usize, after: usize) -> (d: usize)
    ensures
        d == if after >= before { (after - before) as usize } else { 0usize },
{
    if after >= before {
        after - before
    } else {
        0
    }
}

} // verus!
