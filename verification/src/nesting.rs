//! How deeply a text nests its arrays and objects.
//!
//! The text is read as JSON reads it for this purpose: brackets and braces
//! count outside strings only, a string runs from one quote to the next that
//! no backslash protects. Nothing else of the grammar is looked at, so the
//! measure is defined for every byte sequence.

use vstd::prelude::*;

verus! {

/// `"`, which opens and closes a string.
pub const QUOTE: u8 = 0x22;

/// `\`, which protects the byte behind it inside a string.
pub const BACKSLASH: u8 = 0x5c;

/// `[`, which opens an array.
pub const OPEN_BRACKET: u8 = 0x5b;

/// `]`, which closes an array.
pub const CLOSE_BRACKET: u8 = 0x5d;

/// `{`, which opens an object.
pub const OPEN_BRACE: u8 = 0x7b;

/// `}`, which closes an object.
pub const CLOSE_BRACE: u8 = 0x7d;

/// Where a scan stands behind some bytes.
pub struct Scan {
    /// Arrays and objects that are open.
    pub depth: nat,
    /// The scan is inside a string.
    pub in_string: bool,
    /// The scan is inside a string, directly behind a backslash.
    pub escaped: bool,
}

/// A scan that has read nothing.
pub open spec fn scan_start() -> Scan {
    Scan { depth: 0, in_string: false, escaped: false }
}

/// The scan behind one more byte. A closing byte with nothing open leaves
/// the depth at zero.
pub open spec fn scan_step(s: Scan, b: u8) -> Scan {
    if s.in_string {
        if s.escaped {
            Scan { escaped: false, ..s }
        } else if b == BACKSLASH {
            Scan { escaped: true, ..s }
        } else if b == QUOTE {
            Scan { in_string: false, ..s }
        } else {
            s
        }
    } else if b == QUOTE {
        Scan { in_string: true, ..s }
    } else if b == OPEN_BRACKET || b == OPEN_BRACE {
        Scan { depth: s.depth + 1, ..s }
    } else if (b == CLOSE_BRACKET || b == CLOSE_BRACE) && s.depth > 0 {
        Scan { depth: (s.depth - 1) as nat, ..s }
    } else {
        s
    }
}

/// The scan behind all of `bytes`.
pub open spec fn scan(bytes: Seq<u8>) -> Scan
    decreases bytes.len(),
{
    if bytes.len() == 0 {
        scan_start()
    } else {
        scan_step(scan(bytes.drop_last()), bytes.last())
    }
}

/// The greatest depth that a scan of `bytes` reaches on its way.
pub open spec fn nesting(bytes: Seq<u8>) -> nat
    decreases bytes.len(),
{
    if bytes.len() == 0 {
        0
    } else if scan(bytes).depth > nesting(bytes.drop_last()) {
        scan(bytes).depth
    } else {
        nesting(bytes.drop_last())
    }
}

/// The byte at `at` is the first that takes the scan of `bytes` beyond
/// `limit`.
pub open spec fn exceeds_at(bytes: Seq<u8>, limit: nat, at: int) -> bool {
    &&& 0 <= at < bytes.len()
    &&& nesting(bytes.take(at)) <= limit
    &&& scan(bytes.take(at + 1)).depth > limit
}

/// Reading one byte more: the scan steps by that byte, and the nesting is
/// the greater of what it was and the depth now reached.
pub proof fn lemma_scan_next(bytes: Seq<u8>, i: int)
    requires
        0 <= i < bytes.len(),
    ensures
        scan(bytes.take(i + 1)) == scan_step(scan(bytes.take(i)), bytes[i]),
        nesting(bytes.take(i + 1)) == if scan(bytes.take(i + 1)).depth > nesting(bytes.take(i)) {
            scan(bytes.take(i + 1)).depth
        } else {
            nesting(bytes.take(i))
        },
{
    assert(bytes.take(i + 1).drop_last() =~= bytes.take(i));
    assert(bytes.take(i + 1).last() == bytes[i]);
}

/// The open depth never exceeds the nesting.
pub proof fn lemma_depth_within_nesting(bytes: Seq<u8>)
    ensures
        scan(bytes).depth <= nesting(bytes),
    decreases bytes.len(),
{
    if bytes.len() > 0 {
        lemma_depth_within_nesting(bytes.drop_last());
    }
}

/// A text nests at least as deeply as each of its beginnings.
pub proof fn lemma_nesting_grows(bytes: Seq<u8>, k: int)
    requires
        0 <= k <= bytes.len(),
    ensures
        nesting(bytes.take(k)) <= nesting(bytes),
    decreases bytes.len() - k,
{
    if k == bytes.len() {
        assert(bytes.take(k) =~= bytes);
    } else {
        lemma_nesting_grows(bytes, k + 1);
        lemma_scan_next(bytes, k);
    }
}

/// Only one byte can be the first that takes a scan beyond a limit.
pub proof fn lemma_exceeds_at_is_settled(bytes: Seq<u8>, limit: nat, a: int, b: int)
    requires
        exceeds_at(bytes, limit, a),
        exceeds_at(bytes, limit, b),
    ensures
        a == b,
{
    if a < b {
        lemma_depth_within_nesting(bytes.take(a + 1));
        assert(bytes.take(b).take(a + 1) =~= bytes.take(a + 1));
        lemma_nesting_grows(bytes.take(b), a + 1);
    } else if b < a {
        lemma_depth_within_nesting(bytes.take(b + 1));
        assert(bytes.take(a).take(b + 1) =~= bytes.take(b + 1));
        lemma_nesting_grows(bytes.take(a), b + 1);
    }
}

/// Finds the first byte that opens more than `limit` levels, if there is one.
pub fn first_too_deep(json: &[u8], limit: usize) -> (r: Option<usize>)
    ensures
        r is None <==> nesting(json@) <= limit,
        r matches Some(at) ==> exceeds_at(json@, limit as nat, at as int),
{
    let mut depth: usize = 0;
    let mut in_string = false;
    let mut escaped = false;
    let mut i: usize = 0;
    while i < json.len()
        invariant
            i <= json@.len(),
            scan(json@.take(i as int)) == (Scan { depth: depth as nat, in_string, escaped }),
            nesting(json@.take(i as int)) <= limit,
            depth <= limit,
        decreases json@.len() - i,
    {
        let b = json[i];
        proof {
            lemma_scan_next(json@, i as int);
        }
        if in_string {
            if escaped {
                escaped = false;
            } else if b == BACKSLASH {
                escaped = true;
            } else if b == QUOTE {
                in_string = false;
            }
        } else if b == QUOTE {
            in_string = true;
        } else if b == OPEN_BRACKET || b == OPEN_BRACE {
            if depth == limit {
                proof {
                    lemma_nesting_grows(json@, i as int + 1);
                }
                return Some(i);
            }
            depth = depth + 1;
        } else if (b == CLOSE_BRACKET || b == CLOSE_BRACE) && depth > 0 {
            depth = depth - 1;
        }
        i = i + 1;
    }
    proof {
        assert(json@.take(i as int) =~= json@);
    }
    None
}

} // verus!
