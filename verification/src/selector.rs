//! Device selectors: their text form, and what each selects from a pool of
//! platforms and devices.
//!
//! A pool is a list of platforms, each a list of devices. A device is known
//! here by a number that the caller chose for it, the same device always by
//! the same number.

use vstd::prelude::*;
use vstd::string::StringExecFns;
use vstd::string::StringSliceAdditionalSpecFns;
use vstd::utf8::{encode_utf8, is_ascii_chars, is_ascii_chars_encode_utf8};
use crate::error::KristforgeError;
use crate::text::{decimal, decimal_text, digit_text, lemma_decimal_text_digits, lemma_digit_text};

verus! {

/// Which devices to use.
#[derive(Debug, Clone, Copy, PartialEq, Eq, Structural)]
pub enum DeviceSelector {
    /// Every device of every platform.
    All,
    /// Every device of the platform with this index.
    Platform(usize),
    /// The device with the second index on the platform with the first.
    Device(usize, usize),
}

/// Whether a byte is an ASCII decimal digit.
pub open spec fn is_digit(b: u8) -> bool {
    48 <= b <= 57
}

/// The byte with an ASCII capital letter turned into its small letter.
pub open spec fn lower(b: u8) -> u8 {
    if 65 <= b <= 90 {
        (b + 32) as u8
    } else {
        b
    }
}

/// The first position at or after `from` that holds no digit (the length of
/// `s` if there is none).
pub open spec fn digits_end(s: Seq<u8>, from: int) -> int
    decreases s.len() - from,
{
    if 0 <= from < s.len() && is_digit(s[from]) {
        digits_end(s, from + 1)
    } else {
        from
    }
}

/// The decimal number written by the digits of `s` from `lo` up to `hi`.
pub open spec fn number(s: Seq<u8>, lo: int, hi: int) -> nat
    decreases hi - lo,
{
    if hi <= lo {
        0
    } else {
        number(s, lo, hi - 1) * 10 + (s[hi - 1] - 48) as nat
    }
}

/// What a selector text means, if it means anything: `a` for all devices,
/// `p` and a number for a platform, `p`, a number, `d` and a number for one
/// device. Letters count in either case; a number has at least one digit and
/// must fit an index.
pub open spec fn parse(s: Seq<u8>) -> Option<DeviceSelector> {
    let n = s.len() as int;
    let e = digits_end(s, 1);
    if n == 1 && lower(s[0]) == 97 {
        Some(DeviceSelector::All)
    } else if n >= 2 && lower(s[0]) == 112 && e > 1 {
        if e == n {
            if number(s, 1, n) <= usize::MAX {
                Some(DeviceSelector::Platform(number(s, 1, n) as usize))
            } else {
                None
            }
        } else if lower(s[e]) == 100 && e + 1 < n && digits_end(s, e + 1) == n && number(s, 1, e)
            <= usize::MAX && number(s, e + 1, n) <= usize::MAX {
            Some(DeviceSelector::Device(number(s, 1, e) as usize, number(s, e + 1, n) as usize))
        } else {
            None
        }
    } else {
        None
    }
}

/// A pool as a sequence of sequences.
pub open spec fn pool_view(pool: &Vec<Vec<u64>>) -> Seq<Seq<u64>> {
    Seq::new(pool@.len(), |i: int| pool@[i]@)
}

/// The devices of the first `n` platforms, platform by platform.
pub open spec fn first_platforms(pool: Seq<Seq<u64>>, n: int) -> Seq<u64>
    decreases n,
{
    if n <= 0 {
        Seq::empty()
    } else {
        first_platforms(pool, n - 1) + pool[n - 1]
    }
}

/// `acc` followed by those of `items` that were not yet there, each once, in
/// the order in which they first come.
pub open spec fn push_unique(acc: Seq<u64>, items: Seq<u64>) -> Seq<u64>
    decreases items.len(),
{
    if items.len() == 0 {
        acc
    } else {
        let before = push_unique(acc, items.drop_last());
        if before.contains(items.last()) {
            before
        } else {
            before.push(items.last())
        }
    }
}

/// The devices that a list of selectors selects from a pool: each selector's
/// devices in turn, a device listed only where it first comes.
pub open spec fn resolve(selectors: Seq<DeviceSelector>, pool: Seq<Seq<u64>>) -> Seq<u64>
    decreases selectors.len(),
{
    if selectors.len() == 0 {
        Seq::empty()
    } else {
        push_unique(resolve(selectors.drop_last(), pool), selectors.last().selected(pool))
    }
}

/// Reads the digits of `data` from `from` on. Returns where they end, and
/// their number if it fits an index.
fn scan_number(data: &[u8], from: usize) -> (r: (usize, Option<usize>))
    requires
        from <= data@.len(),
    ensures
        r.0 == digits_end(data@, from as int),
        from <= r.0 <= data@.len(),
        number(data@, from as int, r.0 as int) <= usize::MAX ==> r.1 == Some(
            number(data@, from as int, r.0 as int) as usize,
        ),
        number(data@, from as int, r.0 as int) > usize::MAX ==> r.1.is_none(),
{
    let mut i: usize = from;
    let mut acc: usize = 0;
    let mut fits: bool = true;
    while i < data.len() && data[i] >= 48 && data[i] <= 57
        invariant
            from <= i <= data@.len(),
            digits_end(data@, from as int) == digits_end(data@, i as int),
            fits ==> acc == number(data@, from as int, i as int),
            !fits ==> number(data@, from as int, i as int) > usize::MAX,
        decreases data@.len() - i,
    {
        let d: usize = (data[i] - 48) as usize;
        if fits {
            if acc > (usize::MAX - d) / 10 {
                fits = false;
            } else {
                acc = acc * 10 + d;
            }
        }
        i += 1;
    }
    if fits {
        (i, Some(acc))
    } else {
        (i, None)
    }
}

/// The small letter of an ASCII capital, any other byte unchanged.
fn to_lower(b: u8) -> (r: u8)
    ensures
        r == lower(b),
{
    if b >= 65 && b <= 90 {
        b + 32
    } else {
        b
    }
}

/// Whether `v` holds `x`.
fn holds(v: &Vec<u64>, x: u64) -> (r: bool)
    ensures
        r == v@.contains(x),
{
    let mut i: usize = 0;
    while i < v.len()
        invariant
            i <= v@.len(),
            forall|j: int| 0 <= j < i ==> v@[j] != x,
        decreases v@.len() - i,
    {
        if v[i] == x {
            return true;
        }
        i += 1;
    }
    false
}

/// Appends `items` to `out`.
fn append(out: &mut Vec<u64>, items: &Vec<u64>)
    ensures
        final(out)@ == old(out)@ + items@,
{
    let mut j: usize = 0;
    while j < items.len()
        invariant
            j <= items@.len(),
            out@ == old(out)@ + items@.take(j as int),
        decreases items@.len() - j,
    {
        out.push(items[j]);
        assert(items@.take(j + 1) =~= items@.take(j as int).push(items@[j as int]));
        assert(out@ =~= old(out)@ + items@.take(j + 1));
        j += 1;
    }
    assert(items@.take(items@.len() as int) =~= items@);
}

impl DeviceSelector {
    /// The devices that this selector selects from a pool. A platform or a
    /// device that the pool does not have selects nothing.
    pub open spec fn selected(self, pool: Seq<Seq<u64>>) -> Seq<u64> {
        match self {
            DeviceSelector::All => first_platforms(pool, pool.len() as int),
            DeviceSelector::Platform(p) => if p < pool.len() {
                pool[p as int]
            } else {
                Seq::empty()
            },
            DeviceSelector::Device(p, d) => if p < pool.len() && d < pool[p as int].len() {
                seq![pool[p as int][d as int]]
            } else {
                Seq::empty()
            },
        }
    }

    /// The selector's text: `a`, `p` and the platform's index, or `p`, the
    /// platform's index, `d` and the device's index.
    pub open spec fn label_spec(self) -> Seq<char> {
        match self {
            DeviceSelector::All => "a"@,
            DeviceSelector::Platform(p) => "p"@ + decimal_text(p as nat),
            DeviceSelector::Device(p, d) => "p"@ + decimal_text(p as nat) + "d"@ + decimal_text(
                d as nat,
            ),
        }
    }

    /// Writes the selector as text.
    pub fn label(&self) -> (r: String)
        ensures
            r@ == self.label_spec(),
    {
        match *self {
            DeviceSelector::All => String::from_str("a"),
            DeviceSelector::Platform(p) => {
                let mut out: String = String::from_str("p");
                let index: String = decimal(p as u128);
                out.append(index.as_str());
                out
            },
            DeviceSelector::Device(p, d) => {
                let mut out: String = String::from_str("p");
                let platform: String = decimal(p as u128);
                out.append(platform.as_str());
                out.append("d");
                let device: String = decimal(d as u128);
                out.append(device.as_str());
                out
            },
        }
    }

    /// Reads a selector from the bytes of its text.
    pub fn parse_bytes(data: &[u8]) -> (r: Option<DeviceSelector>)
        ensures
            r == parse(data@),
    {
        let n = data.len();
        if n == 1 && to_lower(data[0]) == 97 {
            return Some(DeviceSelector::All);
        }
        if n < 2 || to_lower(data[0]) != 112 {
            return None;
        }
        let (e, platform) = scan_number(data, 1);
        if e == 1 {
            return None;
        }
        if e == n {
            return match platform {
                Some(p) => Some(DeviceSelector::Platform(p)),
                None => None,
            };
        }
        if to_lower(data[e]) != 100 || e + 1 >= n {
            return None;
        }
        let (e2, device) = scan_number(data, e + 1);
        if e2 != n {
            return None;
        }
        match (platform, device) {
            (Some(p), Some(d)) => Some(DeviceSelector::Device(p, d)),
            _ => None,
        }
    }

    /// Reads a selector from text. Text that is no selector is refused, and
    /// the error carries it.
    pub fn from_str(s: &str) -> (r: Result<DeviceSelector, KristforgeError>)
        ensures
            parse(s.spec_bytes()) matches Some(sel) ==> r == Ok::<DeviceSelector, KristforgeError>(
                sel,
            ),
            parse(s.spec_bytes()).is_none() ==> (r matches Err(KristforgeError::InvalidSelector(m))
                && m@ == s@),
    {
        match DeviceSelector::parse_bytes(s.as_bytes()) {
            Some(sel) => Ok(sel),
            None => Err(KristforgeError::InvalidSelector(s.to_owned())),
        }
    }

    /// The devices that this selector selects from `pool`, in the pool's
    /// order.
    pub fn select_devices(&self, pool: &Vec<Vec<u64>>) -> (out: Vec<u64>)
        ensures
            out@ == self.selected(pool_view(pool)),
    {
        let mut out: Vec<u64> = Vec::new();
        match *self {
            DeviceSelector::All => {
                let mut i: usize = 0;
                while i < pool.len()
                    invariant
                        i <= pool@.len(),
                        out@ == first_platforms(pool_view(pool), i as int),
                    decreases pool@.len() - i,
                {
                    append(&mut out, &pool[i]);
                    i += 1;
                }
            },
            DeviceSelector::Platform(p) => {
                if p < pool.len() {
                    append(&mut out, &pool[p]);
                    assert(out@ =~= pool@[p as int]@);
                }
            },
            DeviceSelector::Device(p, d) => {
                if p < pool.len() && d < pool[p].len() {
                    out.push(pool[p][d]);
                    assert(out@ =~= seq![pool@[p as int]@[d as int]]);
                }
            },
        }
        out
    }

    /// The devices that a list of selectors selects from `pool`: no device
    /// twice, each where it first comes. No selectors select nothing.
    pub fn select_all(selectors: &Vec<DeviceSelector>, pool: &Vec<Vec<u64>>) -> (out: Vec<u64>)
        ensures
            out@ == resolve(selectors@, pool_view(pool)),
            out@.no_duplicates(),
            selectors@.len() == 0 ==> out@.len() == 0,
    {
        let mut out: Vec<u64> = Vec::new();
        let mut i: usize = 0;
        while i < selectors.len()
            invariant
                i <= selectors@.len(),
                out@ == resolve(selectors@.take(i as int), pool_view(pool)),
            decreases selectors@.len() - i,
        {
            let items = selectors[i].select_devices(pool);
            let ghost base = out@;
            let mut j: usize = 0;
            while j < items.len()
                invariant
                    j <= items@.len(),
                    out@ == push_unique(base, items@.take(j as int)),
                decreases items@.len() - j,
            {
                let x: u64 = items[j];
                assert(items@.take(j + 1).drop_last() =~= items@.take(j as int));
                assert(items@.take(j + 1).last() == x);
                if !holds(&out, x) {
                    out.push(x);
                }
                j += 1;
            }
            proof {
                assert(items@.take(items@.len() as int) =~= items@);
                assert(selectors@.take(i + 1).drop_last() =~= selectors@.take(i as int));
                assert(selectors@.take(i + 1).last() == selectors@[i as int]);
            }
            i += 1;
        }
        proof {
            assert(selectors@.take(selectors@.len() as int) =~= selectors@);
            lemma_resolve_no_duplicates(selectors@, pool_view(pool));
        }
        out
    }
}

/// Whether the bytes of `s` from `lo` up to `hi` are all digits.
pub open spec fn all_digits(s: Seq<u8>, lo: int, hi: int) -> bool {
    forall|i: int| lo <= i < hi ==> is_digit(#[trigger] s[i])
}

/// The form of a platform selector: `p` or `P`, then digits, at least one,
/// to the end.
pub open spec fn is_platform_text(s: Seq<u8>) -> bool {
    s.len() >= 2 && lower(s[0]) == 112 && all_digits(s, 1, s.len() as int)
}

/// The form of a device selector whose second letter stands at `k`: `p` or
/// `P`, digits, `d` or `D`, and digits to the end, at least one digit each
/// time.
pub open spec fn is_device_text(s: Seq<u8>, k: int) -> bool {
    1 < k < s.len() - 1 && lower(s[0]) == 112 && all_digits(s, 1, k) && lower(s[k]) == 100
        && all_digits(s, k + 1, s.len() as int)
}

/// A run of digits from `from` that stops at `hi` is where `digits_end`
/// stops.
pub proof fn lemma_digits_end_of_run(s: Seq<u8>, from: int, hi: int)
    requires
        0 <= from <= hi <= s.len(),
        all_digits(s, from, hi),
        hi == s.len() || !is_digit(s[hi]),
    ensures
        digits_end(s, from) == hi,
    decreases hi - from,
{
    if from < hi {
        assert(is_digit(s[from]));
        lemma_digits_end_of_run(s, from + 1, hi);
    }
}

/// Up to where `digits_end` stops there are only digits, and there the text
/// ends or holds something else.
pub proof fn lemma_digits_end_bounds(s: Seq<u8>, from: int)
    requires
        0 <= from <= s.len(),
    ensures
        from <= digits_end(s, from) <= s.len(),
        all_digits(s, from, digits_end(s, from)),
        digits_end(s, from) == s.len() || !is_digit(s[digits_end(s, from)]),
    decreases s.len() - from,
{
    if from < s.len() && is_digit(s[from]) {
        lemma_digits_end_bounds(s, from + 1);
    }
}

/// A text of the form of a platform selector is read as that platform, if
/// the number fits an index, and refused if it does not.
pub proof fn lemma_parse_platform_text(s: Seq<u8>)
    requires
        is_platform_text(s),
    ensures
        number(s, 1, s.len() as int) <= usize::MAX ==> parse(s) == Some(
            DeviceSelector::Platform(number(s, 1, s.len() as int) as usize),
        ),
        number(s, 1, s.len() as int) > usize::MAX ==> parse(s).is_none(),
{
    lemma_digits_end_of_run(s, 1, s.len() as int);
}

/// A text of the form of a device selector is read as that device, if both
/// numbers fit an index, and refused if one does not.
pub proof fn lemma_parse_device_text(s: Seq<u8>, k: int)
    requires
        is_device_text(s, k),
    ensures
        number(s, 1, k) <= usize::MAX && number(s, k + 1, s.len() as int) <= usize::MAX
            ==> parse(s) == Some(
            DeviceSelector::Device(
                number(s, 1, k) as usize,
                number(s, k + 1, s.len() as int) as usize,
            ),
        ),
        number(s, 1, k) > usize::MAX || number(s, k + 1, s.len() as int) > usize::MAX ==> parse(
            s,
        ).is_none(),
{
    lemma_digits_end_of_run(s, 1, k);
    lemma_digits_end_of_run(s, k + 1, s.len() as int);
}

/// Only texts of the three forms are read as selectors, each as the
/// selector that its form and its numbers say.
pub proof fn lemma_parse_only_selectors(s: Seq<u8>)
    requires
        parse(s).is_some(),
    ensures
        parse(s) == Some(DeviceSelector::All) ==> s.len() == 1 && lower(s[0]) == 97,
        parse(s) matches Some(DeviceSelector::Platform(p)) ==> is_platform_text(s) && p == number(
            s,
            1,
            s.len() as int,
        ),
        parse(s) matches Some(DeviceSelector::Device(p, d)) ==> is_device_text(s, digits_end(s, 1))
            && p == number(s, 1, digits_end(s, 1)) && d == number(
            s,
            digits_end(s, 1) + 1,
            s.len() as int,
        ),
{
    if s.len() >= 2 {
        let e = digits_end(s, 1);
        lemma_digits_end_bounds(s, 1);
        if e + 1 <= s.len() {
            lemma_digits_end_bounds(s, e + 1);
        }
    }
}

/// Where a text holds a number in decimal, its digits are that number.
pub proof fn lemma_number_of_decimal(s: Seq<u8>, lo: int, hi: int, n: nat)
    requires
        0 <= lo <= hi <= s.len(),
        hi - lo == decimal_text(n).len(),
        forall|i: int| 0 <= i < hi - lo ==> s[lo + i] == (#[trigger] decimal_text(n)[i]) as u8,
    ensures
        hi > lo,
        all_digits(s, lo, hi),
        number(s, lo, hi) == n,
    decreases n,
{
    if n < 10 {
        lemma_digit_text(n);
        assert(s[lo + 0] == decimal_text(n)[0] as u8);
        assert(number(s, lo, lo) == 0);
        assert(number(s, lo, hi) == number(s, lo, hi - 1) * 10 + (s[hi - 1] - 48) as nat);
    } else {
        let front = decimal_text(n / 10);
        let last = digit_text(n % 10);
        lemma_digit_text(n % 10);
        assert(decimal_text(n) == front + last);
        assert forall|i: int| 0 <= i < hi - 1 - lo implies s[lo + i] == (#[trigger] front[i]) as u8 by {
            assert(decimal_text(n)[i] == front[i]);
        }
        lemma_number_of_decimal(s, lo, hi - 1, n / 10);
        assert(decimal_text(n)[hi - 1 - lo] == last[0]);
        assert(s[lo + (hi - 1 - lo)] == decimal_text(n)[hi - 1 - lo] as u8);
        assert(s[hi - 1] == 48 + n % 10);
        assert(number(s, lo, hi) == number(s, lo, hi - 1) * 10 + (s[hi - 1] - 48) as nat);
    }
}

/// A selector's text is read as that selector.
pub proof fn lemma_label_parses(sel: DeviceSelector)
    ensures
        parse(encode_utf8(sel.label_spec())) == Some(sel),
{
    reveal_strlit("a");
    reveal_strlit("p");
    reveal_strlit("d");
    let t = sel.label_spec();
    match sel {
        DeviceSelector::All => {
            assert(is_ascii_chars(t));
            is_ascii_chars_encode_utf8(t);
            let s = encode_utf8(t);
            assert(s[0] == t[0] as u8);
        },
        DeviceSelector::Platform(p) => {
            let dp = decimal_text(p as nat);
            lemma_decimal_text_digits(p as nat);
            assert forall|i: int| 0 <= i < t.len() implies '\0' <= #[trigger] t[i] <= '\u{7f}' by {
                if i >= 1 {
                    assert(t[i] == dp[i - 1]);
                }
            }
            is_ascii_chars_encode_utf8(t);
            let s = encode_utf8(t);
            assert(s[0] == t[0] as u8);
            assert forall|i: int| 0 <= i < s.len() - 1 implies s[1 + i] == (#[trigger] dp[i]) as u8 by {
                assert(t[1 + i] == dp[i]);
                assert(s[1 + i] == t[1 + i] as u8);
            }
            lemma_number_of_decimal(s, 1, s.len() as int, p as nat);
            lemma_parse_platform_text(s);
        },
        DeviceSelector::Device(p, d) => {
            let dp = decimal_text(p as nat);
            let dd = decimal_text(d as nat);
            lemma_decimal_text_digits(p as nat);
            lemma_decimal_text_digits(d as nat);
            let k = 1 + dp.len() as int;
            assert(t.len() == k + 1 + dd.len());
            assert forall|i: int| 0 <= i < t.len() implies '\0' <= #[trigger] t[i] <= '\u{7f}' by {
                if 1 <= i < k {
                    assert(t[i] == dp[i - 1]);
                } else if i > k {
                    assert(t[i] == dd[i - k - 1]);
                }
            }
            is_ascii_chars_encode_utf8(t);
            let s = encode_utf8(t);
            assert(s[0] == t[0] as u8);
            assert(t[k] == 'd');
            assert(s[k] == t[k] as u8);
            assert forall|i: int| 0 <= i < k - 1 implies s[1 + i] == (#[trigger] dp[i]) as u8 by {
                assert(t[1 + i] == dp[i]);
                assert(s[1 + i] == t[1 + i] as u8);
            }
            assert forall|i: int| 0 <= i < s.len() - (k + 1) implies s[k + 1 + i] == (
            #[trigger] dd[i]) as u8 by {
                assert(t[k + 1 + i] == dd[i]);
                assert(s[k + 1 + i] == t[k + 1 + i] as u8);
            }
            lemma_number_of_decimal(s, 1, k, p as nat);
            lemma_number_of_decimal(s, k + 1, s.len() as int, d as nat);
            lemma_parse_device_text(s, k);
        },
    }
}

/// No selectors select nothing, whatever the pool.
pub proof fn lemma_resolve_nothing(pool: Seq<Seq<u64>>)
    ensures
        resolve(Seq::<DeviceSelector>::empty(), pool) == Seq::<u64>::empty(),
{
}

/// Adding items that are not yet there keeps a list free of duplicates.
pub proof fn lemma_push_unique_no_duplicates(acc: Seq<u64>, items: Seq<u64>)
    requires
        acc.no_duplicates(),
    ensures
        push_unique(acc, items).no_duplicates(),
    decreases items.len(),
{
    if items.len() > 0 {
        lemma_push_unique_no_duplicates(acc, items.drop_last());
    }
}

/// After adding, the list holds what it held and what was added, and nothing
/// else.
pub proof fn lemma_push_unique_contains(acc: Seq<u64>, items: Seq<u64>, x: u64)
    ensures
        push_unique(acc, items).contains(x) <==> acc.contains(x) || items.contains(x),
    decreases items.len(),
{
    if items.len() > 0 {
        let front = items.drop_last();
        let before = push_unique(acc, front);
        lemma_push_unique_contains(acc, front, x);
        if items.contains(x) {
            let k = choose|k: int| 0 <= k < items.len() && items[k] == x;
            if k < front.len() {
                assert(front[k] == x);
            }
        }
        if front.contains(x) {
            let k = choose|k: int| 0 <= k < front.len() && front[k] == x;
            assert(items[k] == x);
        }
        if before.contains(x) {
            let k = choose|k: int| 0 <= k < before.len() && before[k] == x;
            assert(before.push(items.last())[k] == x);
        }
        if !before.contains(items.last()) {
            let after = before.push(items.last());
            assert(after[before.len() as int] == items.last());
            assert(items[items.len() - 1] == items.last());
        }
    }
}

/// Adding only items that the list already holds changes nothing.
pub proof fn lemma_push_unique_absorbed(acc: Seq<u64>, items: Seq<u64>)
    requires
        forall|x: u64| items.contains(x) ==> acc.contains(x),
    ensures
        push_unique(acc, items) == acc,
    decreases items.len(),
{
    if items.len() > 0 {
        let front = items.drop_last();
        assert forall|x: u64| front.contains(x) implies acc.contains(x) by {
            let k = choose|k: int| 0 <= k < front.len() && front[k] == x;
            assert(items[k] == x);
        }
        lemma_push_unique_absorbed(acc, front);
        assert(items[items.len() - 1] == items.last());
        assert(items.contains(items.last()));
    }
}

/// No device is selected twice.
pub proof fn lemma_resolve_no_duplicates(selectors: Seq<DeviceSelector>, pool: Seq<Seq<u64>>)
    ensures
        resolve(selectors, pool).no_duplicates(),
    decreases selectors.len(),
{
    if selectors.len() > 0 {
        lemma_resolve_no_duplicates(selectors.drop_last(), pool);
        lemma_push_unique_no_duplicates(
            resolve(selectors.drop_last(), pool),
            selectors.last().selected(pool),
        );
    }
}

/// A device is selected by a list of selectors exactly if one of them
/// selects it.
pub proof fn lemma_resolve_contains(selectors: Seq<DeviceSelector>, pool: Seq<Seq<u64>>, x: u64)
    ensures
        resolve(selectors, pool).contains(x) <==> exists|i: int|
            0 <= i < selectors.len() && (#[trigger] selectors[i]).selected(pool).contains(x),
    decreases selectors.len(),
{
    if selectors.len() > 0 {
        let front = selectors.drop_last();
        lemma_resolve_contains(front, pool, x);
        lemma_push_unique_contains(resolve(front, pool), selectors.last().selected(pool), x);
        if resolve(selectors, pool).contains(x) {
            if resolve(front, pool).contains(x) {
                let i = choose|i: int|
                    0 <= i < front.len() && (#[trigger] front[i]).selected(pool).contains(x);
                assert(selectors[i] == front[i]);
            } else {
                assert(selectors[selectors.len() - 1].selected(pool).contains(x));
            }
        }
        if exists|i: int|
            0 <= i < selectors.len() && (#[trigger] selectors[i]).selected(pool).contains(x) {
            let i = choose|i: int|
                0 <= i < selectors.len() && (#[trigger] selectors[i]).selected(pool).contains(x);
            if i < front.len() {
                assert(front[i] == selectors[i]);
            }
        }
    }
}

/// Every device of each of the first `n` platforms is among the devices of
/// the first `n` platforms.
pub proof fn lemma_platform_within(pool: Seq<Seq<u64>>, n: int, p: int, d: int)
    requires
        0 <= p < n <= pool.len(),
        0 <= d < pool[p].len(),
    ensures
        first_platforms(pool, n).contains(pool[p][d]),
    decreases n,
{
    let front = first_platforms(pool, n - 1);
    let whole = front + pool[n - 1];
    if p == n - 1 {
        assert(whole[front.len() + d] == pool[p][d]);
    } else {
        lemma_platform_within(pool, n - 1, p, d);
        let k = choose|k: int| 0 <= k < front.len() && front[k] == pool[p][d];
        assert(whole[k] == pool[p][d]);
    }
}

/// Whatever a selector selects, the selector for all devices selects too.
pub proof fn lemma_selected_within_all(sel: DeviceSelector, pool: Seq<Seq<u64>>, x: u64)
    requires
        sel.selected(pool).contains(x),
    ensures
        DeviceSelector::All.selected(pool).contains(x),
{
    let items = sel.selected(pool);
    let k = choose|k: int| 0 <= k < items.len() && items[k] == x;
    match sel {
        DeviceSelector::All => {},
        DeviceSelector::Platform(p) => {
            lemma_platform_within(pool, pool.len() as int, p as int, k);
        },
        DeviceSelector::Device(p, d) => {
            lemma_platform_within(pool, pool.len() as int, p as int, d as int);
        },
    }
}

/// After the selector for all devices, any further selector adds nothing: the
/// two lists select the same devices in the same order, whatever the pool.
pub proof fn lemma_all_absorbs(sel: DeviceSelector, pool: Seq<Seq<u64>>)
    ensures
        resolve(seq![DeviceSelector::All, sel], pool) == resolve(seq![DeviceSelector::All], pool),
{
    let one = seq![DeviceSelector::All];
    let two = seq![DeviceSelector::All, sel];
    assert(two.drop_last() =~= one);
    assert(two.last() == sel);
    let base = resolve(one, pool);
    assert(one.drop_last() =~= Seq::<DeviceSelector>::empty());
    assert(one.last() == DeviceSelector::All);
    assert(resolve(one.drop_last(), pool) =~= Seq::<u64>::empty());
    assert forall|x: u64| sel.selected(pool).contains(x) implies base.contains(x) by {
        lemma_selected_within_all(sel, pool, x);
        lemma_push_unique_contains(Seq::<u64>::empty(), DeviceSelector::All.selected(pool), x);
    }
    lemma_push_unique_absorbed(base, sel.selected(pool));
}

} // verus!
