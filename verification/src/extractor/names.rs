//! A check on the tag names of a text, made before the text is handed to
//! the readability heuristic.

use vstd::prelude::*;
use vstd::string::StringSliceAdditionalSpecFns;

verus! {

/// An ASCII letter.
pub open spec fn is_ascii_letter(b: u8) -> bool {
    0x41 <= b <= 0x5a || 0x61 <= b <= 0x7a
}

/// A byte of a plain tag name: an ASCII letter or digit, `-` or `_`.
pub open spec fn is_name_byte(b: u8) -> bool {
    is_ascii_letter(b) || 0x30 <= b <= 0x39 || b == 0x2d || b == 0x5f
}

/// A byte that ends a tag name: tab, line feed, form feed, carriage return,
/// space, `/` or `>`.
pub open spec fn ends_name(b: u8) -> bool {
    b == 0x09 || b == 0x0a || b == 0x0c || b == 0x0d || b == 0x20 || b == 0x2f || b == 0x3e
}

/// A tag opens at `at`: a `<` with an ASCII letter behind it.
pub open spec fn opens_tag(bytes: Seq<u8>, at: int) -> bool {
    0 <= at && at + 1 < bytes.len() && bytes[at] == 0x3c && is_ascii_letter(bytes[at + 1])
}

/// From `start` up to `end`, every byte before the first byte that ends a
/// name is a name byte.
pub open spec fn plain_until(bytes: Seq<u8>, start: int, end: int) -> bool {
    forall|j: int|
        start <= j < end && (forall|k: int| start <= k < j ==> !ends_name(#[trigger] bytes[k]))
            ==> ends_name(#[trigger] bytes[j]) || is_name_byte(bytes[j])
}

/// Every tag that opens in `bytes` has a plain name: from the letter behind
/// its `<` to the byte that ends the name, or to the end of the text, there
/// are only ASCII letters and digits, `-` and `_`.
pub open spec fn plain_tag_names(bytes: Seq<u8>) -> bool {
    forall|at: int| #[trigger] opens_tag(bytes, at) ==> plain_until(bytes, at + 1, bytes.len() as int)
}

/// Whether every tag that opens in `html` has a plain name.
pub fn has_plain_tag_names(html: &str) -> (plain: bool)
    ensures
        plain == plain_tag_names(html.spec_bytes()),
{
    let bytes = html.as_bytes();
    let n = bytes.len();
    let mut i: usize = 0;
    let mut in_name = false;
    let ghost mut start: int = 0;
    while i < n
        invariant
            i <= n,
            n == bytes@.len(),
            bytes@ == html.spec_bytes(),
            in_name ==> 1 <= start <= i && opens_tag(bytes@, start - 1) && forall|k: int|
                start <= k < i ==> !ends_name(#[trigger] bytes@[k]),
            forall|at: int|
                #[trigger] opens_tag(bytes@, at) && at < i && !(in_name && at == start - 1)
                    ==> exists|k: int| at < k < i && ends_name(#[trigger] bytes@[k]),
            forall|at: int|
                #[trigger] opens_tag(bytes@, at) && at < i ==> plain_until(bytes@, at + 1, i as int),
        decreases n - i,
    {
        let b = bytes[i];
        let ghost was_in_name = in_name;
        if in_name {
            if b == 0x09 || b == 0x0a || b == 0x0c || b == 0x0d || b == 0x20 || b == 0x2f || b
                == 0x3e {
                in_name = false;
            } else if !((0x41 <= b && b <= 0x5a) || (0x61 <= b && b <= 0x7a) || (0x30 <= b && b
                <= 0x39) || b == 0x2d || b == 0x5f) {
                proof {
                    assert(!plain_until(bytes@, start, n as int)) by {
                        assert(!(ends_name(bytes@[i as int]) || is_name_byte(bytes@[i as int])));
                    }
                    assert(opens_tag(bytes@, start - 1));
                }
                return false;
            }
        } else if b == 0x3c && i + 1 < n {
            let c = bytes[i + 1];
            if (0x41 <= c && c <= 0x5a) || (0x61 <= c && c <= 0x7a) {
                in_name = true;
                proof {
                    start = i + 1;
                }
            }
        }
        proof {
            let stop = i + 1;
            assert forall|at: int|
                #[trigger] opens_tag(bytes@, at) && at < stop && !(in_name && at == start - 1)
                implies exists|k: int| at < k < stop && ends_name(#[trigger] bytes@[k]) by {
                if at < i && !(was_in_name && at == start - 1) {
                    let k = choose|k: int| at < k < i && ends_name(#[trigger] bytes@[k]);
                    assert(at < k < stop && ends_name(bytes@[k]));
                } else if at < i {
                    assert(ends_name(bytes@[i as int]));
                }
            }
            assert forall|at: int| #[trigger] opens_tag(bytes@, at) && at < stop implies plain_until(
                bytes@,
                at + 1,
                stop,
            ) by {
                if at < i {
                    assert(plain_until(bytes@, at + 1, i as int));
                    if !(was_in_name && at == start - 1) {
                        let k = choose|k: int| at < k < i && ends_name(#[trigger] bytes@[k]);
                        assert(at + 1 <= k < i);
                    }
                }
            }
        }
        i = i + 1;
    }
    proof {
        assert forall|at: int| #[trigger] opens_tag(bytes@, at) implies plain_until(
            bytes@,
            at + 1,
            n as int,
        ) by {
            assert(at < n);
        }
    }
    true
}

} // verus!
