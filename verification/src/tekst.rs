//! Text helpers: the std string functions that vstd does not specify,
//! written out and proved against their statements.
use vstd::prelude::*;

verus! {

/// One decimal digit as text.
pub open spec fn cyfra_tekstem(d: int) -> Seq<char> {
    if d == 0 { "0"@ } else if d == 1 { "1"@ } else if d == 2 { "2"@ } else if d == 3 { "3"@ }
    else if d == 4 { "4"@ } else if d == 5 { "5"@ } else if d == 6 { "6"@ } else if d == 7 { "7"@ }
    else if d == 8 { "8"@ } else { "9"@ }
}

/// The decimal digits of a natural number, most significant first, with no
/// leading zeros.
pub open spec fn cyfry_dziesietne(n: nat) -> Seq<char>
    decreases n,
{
    if n < 10 {
        cyfra_tekstem(n as int)
    } else {
        cyfry_dziesietne(n / 10) + cyfra_tekstem((n % 10) as int)
    }
}

/// Decimal rendering of an integer, as `ToString` writes it: a minus sign
/// before the digits of a negative number.
pub open spec fn decimal_text(v: int) -> Seq<char> {
    if v < 0 { "-"@ + cyfry_dziesietne((-v) as nat) } else { cyfry_dziesietne(v as nat) }
}

pub(crate) fn cyfra_exec(d: u64) -> (r: &'static str)
    ensures
        r@ == cyfra_tekstem(d as int),
{
    if d == 0 { "0" } else if d == 1 { "1" } else if d == 2 { "2" } else if d == 3 { "3" }
    else if d == 4 { "4" } else if d == 5 { "5" } else if d == 6 { "6" } else if d == 7 { "7" }
    else if d == 8 { "8" } else { "9" }
}

/// A character of the Unicode White_Space property, the white space that
/// `str::trim` removes.
pub open spec fn bialy(c: char) -> bool {
    let u = c as u32;
    ||| 0x9 <= u <= 0xD
    ||| u == 0x20 || u == 0x85 || u == 0xA0 || u == 0x1680
    ||| 0x2000 <= u <= 0x200A
    ||| u == 0x2028 || u == 0x2029 || u == 0x202F || u == 0x205F || u == 0x3000
}

/// The first position at or after `k` that holds no white space.
pub open spec fn lewa_od(s: Seq<char>, k: int) -> int
    decreases s.len() - k,
{
    if k >= s.len() || k < 0 {
        s.len() as int
    } else if bialy(s[k]) {
        lewa_od(s, k + 1)
    } else {
        k
    }
}

/// One past the last position before `k` and not before `a` that holds no
/// white space (`a` when there is none).
pub open spec fn prawa_do(s: Seq<char>, k: int, a: int) -> int
    decreases k,
{
    if k <= a || k <= 0 {
        a
    } else if bialy(s[k - 1]) {
        prawa_do(s, k - 1, a)
    } else {
        k
    }
}

/// What `str::trim` leaves of a text: the text without its leading and
/// trailing white space.
pub open spec fn trimmed_text(s: Seq<char>) -> Seq<char> {
    let a = lewa_od(s, 0);
    s.subrange(a, prawa_do(s, s.len() as int, a))
}

proof fn lemma_lewa(s: Seq<char>, k: int)
    requires
        0 <= k <= s.len(),
    ensures
        k <= lewa_od(s, k) <= s.len(),
        lewa_od(s, k) < s.len() ==> !bialy(s[lewa_od(s, k)]),
    decreases s.len() - k,
{
    if k < s.len() && bialy(s[k]) {
        lemma_lewa(s, k + 1);
    }
}

proof fn lemma_prawa(s: Seq<char>, k: int, a: int)
    requires
        0 <= a <= k <= s.len(),
    ensures
        a <= prawa_do(s, k, a) <= k,
        prawa_do(s, k, a) > a ==> !bialy(s[prawa_do(s, k, a) - 1]),
    decreases k,
{
    if k > a && bialy(s[k - 1]) {
        lemma_prawa(s, k - 1, a);
    }
}

/// Trimming twice is trimming once.
pub proof fn przyciecie_idempotentne(s: Seq<char>)
    ensures
        trimmed_text(trimmed_text(s)) == trimmed_text(s),
{
    lemma_lewa(s, 0);
    let a = lewa_od(s, 0);
    lemma_prawa(s, s.len() as int, a);
    let t = trimmed_text(s);
    if t.len() > 0 {
        assert(t[0] == s[a]);
        assert(t[t.len() - 1] == s[prawa_do(s, s.len() as int, a) - 1]);
        assert(lewa_od(t, 0) == 0);
        assert(prawa_do(t, t.len() as int, 0) == t.len());
    }
    assert(trimmed_text(t) =~= t);
}

fn bialy_exec(c: char) -> (r: bool)
    ensures
        r == bialy(c),
{
    let u = c as u32;
    (0x9 <= u && u <= 0xD) || u == 0x20 || u == 0x85 || u == 0xA0 || u == 0x1680 || (0x2000 <= u && u <= 0x200A)
        || u == 0x2028 || u == 0x2029 || u == 0x202F || u == 0x205F || u == 0x3000
}

/// The text without its leading and trailing white space, as `str::trim`
/// gives it.
pub fn przytnij(s: &str) -> (r: &str)
    ensures
        r@ == trimmed_text(s@),
        r@.len() <= s@.len(),
{
    let n = s.unicode_len();
    let mut a: usize = 0;
    while a < n && bialy_exec(s.get_char(a))
        invariant
            n == s@.len(),
            a <= n,
            lewa_od(s@, a as int) == lewa_od(s@, 0),
        decreases n - a,
    {
        a = a + 1;
    }
    let mut b: usize = n;
    while b > a && bialy_exec(s.get_char(b - 1))
        invariant
            n == s@.len(),
            a <= b <= n,
            a == lewa_od(s@, 0),
            prawa_do(s@, b as int, a as int) == prawa_do(s@, n as int, a as int),
        decreases b,
    {
        b = b - 1;
    }
    s.substring_char(a, b)
}

/// Text that `str::trim` reduces to nothing.
pub open spec fn blank(s: Seq<char>) -> bool {
    trimmed_text(s).len() == 0
}

pub fn pusty_po_przycieciu(s: &str) -> (r: bool)
    ensures
        r == blank(s@),
{
    przytnij(s).unicode_len() == 0
}

/// The decimal text of a number, as `u64::to_string` writes it.
pub(crate) fn liczba_tekstem(v: u64) -> (r: String)
    ensures
        r@ == decimal_text(v as int),
    decreases v,
{
    if v < 10 {
        String::from_str(cyfra_exec(v))
    } else {
        let mut s = liczba_tekstem(v / 10);
        s.append(cyfra_exec(v % 10));
        s
    }
}

/// The decimal text of a signed number, as `i64::to_string` writes it.
pub(crate) fn liczba_ze_znakiem_tekstem(v: i64) -> (r: String)
    ensures
        r@ == decimal_text(v as int),
{
    if v < 0 {
        let m: u64 = if v == i64::MIN { 9223372036854775808u64 } else { (0 - v) as u64 };
        let mut s = String::from_str("-");
        let c = liczba_tekstem(m);
        s.append(c.as_str());
        s
    } else {
        liczba_tekstem(v as u64)
    }
}

/// Number of bytes of the UTF-8 encoding of one character.
pub open spec fn bajty_znaku(c: char) -> nat {
    if (c as u32) < 0x80 {
        1
    } else if (c as u32) < 0x800 {
        2
    } else if (c as u32) < 0x10000 {
        3
    } else {
        4
    }
}

/// Length of the UTF-8 encoding of a text.
pub open spec fn dlugosc_utf8(s: Seq<char>) -> nat
    decreases s.len(),
{
    if s.len() == 0 {
        0
    } else {
        dlugosc_utf8(s.drop_last()) + bajty_znaku(s.last())
    }
}

/// The length of a text's UTF-8 encoding in bytes, as `str::len` gives it.
pub(crate) fn dlugosc_bajtow(s: &str) -> (r: usize)
    requires
        dlugosc_utf8(s@) <= usize::MAX,
    ensures
        r == dlugosc_utf8(s@),
{
    let n = s.unicode_len();
    let mut suma: usize = 0;
    let mut k: usize = 0;
    while k < n
        invariant
            n == s@.len(),
            k <= n,
            suma == dlugosc_utf8(s@.take(k as int)),
            dlugosc_utf8(s@) <= usize::MAX,
        decreases n - k,
    {
        let c = s.get_char(k);
        proof {
            assert(s@.take(k + 1).drop_last() =~= s@.take(k as int));
            lemma_dlugosc_rosnie(s@, k + 1);
        }
        let u = c as u32;
        let w: usize = if u < 0x80 {
            1
        } else if u < 0x800 {
            2
        } else if u < 0x10000 {
            3
        } else {
            4
        };
        suma = suma + w;
        k = k + 1;
    }
    proof {
        assert(s@.take(n as int) =~= s@);
    }
    suma
}

proof fn lemma_dlugosc_rosnie(s: Seq<char>, k: int)
    requires
        0 <= k <= s.len(),
    ensures
        dlugosc_utf8(s.take(k)) <= dlugosc_utf8(s),
    decreases s.len() - k,
{
    if k < s.len() {
        lemma_dlugosc_rosnie(s, k + 1);
        assert(s.take(k + 1).drop_last() =~= s.take(k));
    } else {
        assert(s.take(k) =~= s);
    }
}

/// Literal text equality.
pub fn rowne_teksty(a: &str, b: &str) -> (r: bool)
    ensures
        r == (a@ == b@),
{
    let n = a.unicode_len();
    if n != b.unicode_len() {
        return false;
    }
    let mut k: usize = 0;
    while k < n
        invariant
            n == a@.len(),
            n == b@.len(),
            k <= n,
            forall|j: int| 0 <= j < k ==> a@[j] == b@[j],
        decreases n - k,
    {
        if a.get_char(k) != b.get_char(k) {
            return false;
        }
        k = k + 1;
    }
    assert(a@ =~= b@);
    true
}


/// The parts of a text between separators, as `str::split` with one
/// character gives them: one more part than there are separators, empty
/// parts included.
pub open spec fn czesci(s: Seq<char>, sep: char) -> Seq<Seq<char>>
    decreases s.len(),
{
    if s.len() == 0 {
        seq![Seq::<char>::empty()]
    } else if s.last() == sep {
        czesci(s.drop_last(), sep).push(Seq::<char>::empty())
    } else {
        let p = czesci(s.drop_last(), sep);
        p.update(p.len() - 1, p.last().push(s.last()))
    }
}

pub proof fn lemma_czesci_niepuste(s: Seq<char>, sep: char)
    ensures
        czesci(s, sep).len() >= 1,
    decreases s.len(),
{
    if s.len() > 0 {
        lemma_czesci_niepuste(s.drop_last(), sep);
    }
}

/// Splits a text at every occurrence of a separator character.
pub fn podziel(s: &str, sep: char) -> (r: Vec<&str>)
    ensures
        r@.len() == czesci(s@, sep).len(),
        forall|k: int| 0 <= k < r@.len() ==> (#[trigger] r@[k])@ == czesci(s@, sep)[k],
{
    let n = s.unicode_len();
    let mut out: Vec<&str> = Vec::new();
    let mut start: usize = 0;
    let mut k: usize = 0;
    proof {
        assert(s@.take(0) =~= Seq::<char>::empty());
        assert(s@.subrange(0, 0) =~= Seq::<char>::empty());
    }
    while k < n
        invariant
            n == s@.len(),
            start <= k <= n,
            czesci(s@.take(k as int), sep).len() == out@.len() + 1,
            forall|j: int| 0 <= j < out@.len() ==> (#[trigger] out@[j])@ == czesci(s@.take(k as int), sep)[j],
            czesci(s@.take(k as int), sep).last() == s@.subrange(start as int, k as int),
        decreases n - k,
    {
        let c = s.get_char(k);
        proof {
            assert(s@.take(k + 1).drop_last() =~= s@.take(k as int));
            assert(s@.take(k + 1).last() == c);
        }
        if c == sep {
            let part = s.substring_char(start, k);
            out.push(part);
            start = k + 1;
            proof {
                assert(s@.subrange(start as int, k + 1) =~= Seq::<char>::empty());
            }
        } else {
            proof {
                assert(s@.subrange(start as int, k + 1) =~= s@.subrange(start as int, k as int).push(c));
            }
        }
        k = k + 1;
    }
    let last = s.substring_char(start, n);
    out.push(last);
    proof {
        assert(s@.take(n as int) =~= s@);
        lemma_czesci_niepuste(s@, sep);
    }
    out
}

pub open spec fn cyfra(c: char) -> bool {
    '0' <= c <= '9'
}

pub open spec fn same_cyfry(d: Seq<char>) -> bool {
    forall|k: int| 0 <= k < d.len() ==> cyfra(#[trigger] d[k])
}

/// The value of a string of decimal digits.
pub open spec fn wartosc_cyfr(d: Seq<char>) -> nat
    decreases d.len(),
{
    if d.len() == 0 {
        0
    } else {
        wartosc_cyfr(d.drop_last()) * 10 + ((d.last() as u32) - ('0' as u32)) as nat
    }
}

/// A decimal integer as `str::parse` reads one: an optional sign (a minus only
/// where negative values are allowed) followed by at least one ASCII digit,
/// nothing else; the value with its sign.
pub open spec fn liczba_dziesietna(s: Seq<char>, ze_znakiem: bool) -> Option<int> {
    let ujemna = ze_znakiem && s.len() > 0 && s[0] == '-';
    let d = if s.len() > 0 && (s[0] == '+' || ujemna) { s.skip(1) } else { s };
    if d.len() == 0 || !same_cyfry(d) {
        None
    } else if ujemna {
        Some(-(wartosc_cyfr(d) as int))
    } else {
        Some(wartosc_cyfr(d) as int)
    }
}

/// What `u32::from_str` gives for a text.
pub open spec fn liczba_u32(s: Seq<char>) -> Option<u32> {
    match liczba_dziesietna(s, false) {
        Some(v) => if v <= u32::MAX { Some(v as u32) } else { None },
        None => None,
    }
}

/// What `i64::from_str` gives for a text.
pub open spec fn liczba_i64(s: Seq<char>) -> Option<i64> {
    match liczba_dziesietna(s, true) {
        Some(v) => if i64::MIN <= v <= i64::MAX { Some(v as i64) } else { None },
        None => None,
    }
}

proof fn lemma_wartosc_rosnie(d: Seq<char>, k: int)
    requires
        0 <= k <= d.len(),
    ensures
        wartosc_cyfr(d.take(k)) <= wartosc_cyfr(d),
    decreases d.len() - k,
{
    if k < d.len() {
        lemma_wartosc_rosnie(d, k + 1);
        assert(d.take(k + 1).drop_last() =~= d.take(k));
    } else {
        assert(d.take(k) =~= d);
    }
}

/// Reads the digits of `s` from `od` on, as long as their value stays at most
/// `granica`. `None` when a character is no digit or the value exceeds it.
fn cyfry_do(s: &str, od: usize, granica: u64) -> (r: Option<u64>)
    requires
        od <= s@.len(),
        granica >= 9,
    ensures
        ({
            let d = s@.skip(od as int);
            match r {
                Some(v) => same_cyfry(d) && v == wartosc_cyfr(d) && v <= granica,
                None => !same_cyfry(d) || wartosc_cyfr(d) > granica,
            }
        }),
{
    let n = s.unicode_len();
    let ghost d = s@.skip(od as int);
    let mut v: u64 = 0;
    let mut k: usize = od;
    proof {
        assert(d.take(0) =~= Seq::<char>::empty());
    }
    while k < n
        invariant
            n == s@.len(),
            od <= k <= n,
            granica >= 9,
            d == s@.skip(od as int),
            same_cyfry(d.take(k - od)),
            v == wartosc_cyfr(d.take(k - od)),
            v <= granica,
        decreases n - k,
    {
        let c = s.get_char(k);
        let ghost j = (k - od) as int;
        proof {
            assert(d[j] == c);
            assert(d.take(j + 1).drop_last() =~= d.take(j));
            assert(d.take(j + 1).last() == c);
        }
        if !('0' <= c && c <= '9') {
            return None;
        }
        let cyf = ((c as u32) - ('0' as u32)) as u64;
        if v > (granica - cyf) / 10 {
            proof {
                assert(wartosc_cyfr(d.take(j + 1)) == v * 10 + cyf);
                assert(v * 10 + cyf > granica) by (nonlinear_arith)
                    requires
                        v > (granica - cyf) / 10,
                        cyf <= granica,
                ;
                lemma_wartosc_rosnie(d, j + 1);
            }
            return None;
        }
        proof {
            assert(v * 10 + cyf <= granica) by (nonlinear_arith)
                requires
                    v <= (granica - cyf) / 10,
                    cyf <= granica,
            ;
        }
        v = v * 10 + cyf;
        k = k + 1;
    }
    proof {
        assert(d.take(k - od) =~= d);
    }
    Some(v)
}


/// Reads an unsigned 32-bit decimal as `u32::from_str` does.
pub fn liczba_u32_z_tekstu(s: &str) -> (r: Option<u32>)
    ensures
        r == liczba_u32(s@),
{
    let n = s.unicode_len();
    let od: usize = if n > 0 && s.get_char(0) == '+' { 1 } else { 0 };
    proof {
        if od == 0 {
            assert(s@.skip(0) =~= s@);
        }
    }
    if od >= n {
        return None;
    }
    match cyfry_do(s, od, 4294967295u64) {
        Some(v) => Some(v as u32),
        None => None,
    }
}

/// Reads a signed 64-bit decimal as `i64::from_str` does.
pub fn liczba_i64_z_tekstu(s: &str) -> (r: Option<i64>)
    ensures
        r == liczba_i64(s@),
{
    let n = s.unicode_len();
    let ujemna = n > 0 && s.get_char(0) == '-';
    let od: usize = if n > 0 && (s.get_char(0) == '+' || ujemna) { 1 } else { 0 };
    proof {
        if od == 0 {
            assert(s@.skip(0) =~= s@);
        }
    }
    if od >= n {
        return None;
    }
    let granica: u64 = if ujemna { 9223372036854775808u64 } else { 9223372036854775807u64 };
    match cyfry_do(s, od, granica) {
        Some(v) => {
            if ujemna {
                if v == 9223372036854775808u64 {
                    Some(i64::MIN)
                } else {
                    Some(-(v as i64))
                }
            } else {
                Some(v as i64)
            }
        },
        None => None,
    }
}


/// Position of the first decimal separator (`.` or `,`) at or after `k`.
pub open spec fn separator_od(s: Seq<char>, k: int) -> int
    decreases s.len() - k,
{
    if k >= s.len() || k < 0 {
        s.len() as int
    } else if s[k] == '.' || s[k] == ',' {
        k
    } else {
        separator_od(s, k + 1)
    }
}

/// A price written with at most three decimals (`.` or `,` as separator),
/// in thousandths: at least one digit, then optionally a separator and one
/// to three digits.
pub open spec fn tysieczne(s: Seq<char>) -> Option<u64> {
    let p = separator_od(s, 0);
    let calk = s.take(p);
    let ulam = if p < s.len() { s.skip(p + 1) } else { Seq::<char>::empty() };
    if calk.len() == 0 || !same_cyfry(calk) || (p < s.len() && (ulam.len() == 0 || ulam.len() > 3 || !same_cyfry(ulam))) {
        None
    } else {
        let skala: nat = if ulam.len() == 0 { 0 } else if ulam.len() == 1 { 100 } else if ulam.len() == 2 { 10 } else { 1 };
        let v = wartosc_cyfr(calk) * 1000 + wartosc_cyfr(ulam) * skala;
        if v <= u64::MAX { Some(v as u64) } else { None }
    }
}

proof fn lemma_separator(s: Seq<char>, k: int)
    requires
        0 <= k <= s.len(),
    ensures
        k <= separator_od(s, k) <= s.len(),
        separator_od(s, k) < s.len() ==> (s[separator_od(s, k)] == '.' || s[separator_od(s, k)] == ','),
        forall|j: int| k <= j < separator_od(s, k) ==> s[j] != '.' && s[j] != ',',
    decreases s.len() - k,
{
    if k < s.len() && !(s[k] == '.' || s[k] == ',') {
        lemma_separator(s, k + 1);
    }
}

/// Reads a price written with at most three decimals, in thousandths.
pub fn tysieczne_z_tekstu(s: &str) -> (r: Option<u64>)
    ensures
        r == tysieczne(s@),
{
    let n = s.unicode_len();
    let mut p: usize = 0;
    while p < n && !(s.get_char(p) == '.' || s.get_char(p) == ',')
        invariant
            n == s@.len(),
            p <= n,
            separator_od(s@, p as int) == separator_od(s@, 0),
        decreases n - p,
    {
        p = p + 1;
    }
    let ghost calk = s@.take(p as int);
    if p == 0 {
        return None;
    }
    // the integer part
    let mut v: u64 = 0;
    let mut k: usize = 0;
    proof {
        assert(calk.take(0) =~= Seq::<char>::empty());
    }
    while k < p
        invariant
            n == s@.len(),
            k <= p <= n,
            p as int == separator_od(s@, 0),
            calk == s@.take(p as int),
            same_cyfry(calk.take(k as int)),
            v == wartosc_cyfr(calk.take(k as int)),
            v <= 18446744073709551,
        decreases p - k,
    {
        let c = s.get_char(k);
        proof {
            assert(calk[k as int] == c);
            assert(calk.take(k + 1).drop_last() =~= calk.take(k as int));
            assert(calk.take(k + 1).last() == c);
        }
        if !('0' <= c && c <= '9') {
            proof {
                assert(!same_cyfry(calk)) by {
                    assert(!cyfra(calk[k as int]));
                }
            }
            return None;
        }
        let cyf = ((c as u32) - ('0' as u32)) as u64;
        if v > (18446744073709551 - cyf) / 10 {
            proof {
                assert(v * 10 + cyf > 18446744073709551) by (nonlinear_arith)
                    requires
                        v > (18446744073709551 - cyf) / 10,
                        cyf <= 9,
                ;
                lemma_wartosc_rosnie(calk, k + 1);
                assert(wartosc_cyfr(calk) >= 18446744073709552);
            }
            return None;
        }
        proof {
            assert(v * 10 + cyf <= 18446744073709551) by (nonlinear_arith)
                requires
                    v <= (18446744073709551 - cyf) / 10,
                    cyf <= 9,
            ;
        }
        v = v * 10 + cyf;
        k = k + 1;
    }
    proof {
        assert(calk.take(p as int) =~= calk);
    }
    let ghost ulam = if p < n { s@.skip(p + 1) } else { Seq::<char>::empty() };
    let mut f: u64 = 0;
    let mut skala: u64 = 0;
    if p < n {
        let m = n - p - 1;
        if m == 0 || m > 3 {
            return None;
        }
        let mut j: usize = 0;
        proof {
            assert(ulam.take(0) =~= Seq::<char>::empty());
        }
        while j < m
            invariant
                n == s@.len(),
                p < n,
                p as int == separator_od(s@, 0),
                m == n - p - 1,
                1 <= m <= 3,
                j <= m,
                ulam == s@.skip(p + 1),
                same_cyfry(ulam.take(j as int)),
                f == wartosc_cyfr(ulam.take(j as int)),
                f < 1000,
                j == 0 ==> f == 0,
                j == 1 ==> f < 10,
                j == 2 ==> f < 100,
            decreases m - j,
        {
            let c = s.get_char(p + 1 + j);
            proof {
                assert(ulam[j as int] == c);
                assert(ulam.take(j + 1).drop_last() =~= ulam.take(j as int));
                assert(ulam.take(j + 1).last() == c);
            }
            if !('0' <= c && c <= '9') {
                proof {
                    assert(!same_cyfry(ulam)) by {
                        assert(!cyfra(ulam[j as int]));
                    }
                }
                return None;
            }
            f = f * 10 + ((c as u32) - ('0' as u32)) as u64;
            j = j + 1;
        }
        proof {
            assert(ulam.take(m as int) =~= ulam);
        }
        skala = if m == 1 { 100 } else if m == 2 { 10 } else { 1 };
    }
    let total = (v as u128) * 1000 + (f as u128) * (skala as u128);
    if total > 18446744073709551615u128 {
        return None;
    }
    Some(total as u64)
}


/// The text without its leading white space, as `str::trim_start` gives it.
pub open spec fn bez_wiodacych(s: Seq<char>) -> Seq<char> {
    s.skip(lewa_od(s, 0))
}

/// The text without its leading white space.
pub fn przytnij_z_lewej(s: &str) -> (r: &str)
    ensures
        r@ == bez_wiodacych(s@),
{
    let n = s.unicode_len();
    let mut a: usize = 0;
    while a < n && bialy_exec(s.get_char(a))
        invariant
            n == s@.len(),
            a <= n,
            lewa_od(s@, a as int) == lewa_od(s@, 0),
        decreases n - a,
    {
        a = a + 1;
    }
    proof {
        assert(s@.subrange(a as int, n as int) =~= s@.skip(a as int));
    }
    s.substring_char(a, n)
}


/// Whether a text takes more than `granica` bytes in UTF-8, as comparing
/// `str::len` with the bound tells it.
pub fn dluzszy_niz(s: &str, granica: u32) -> (r: bool)
    ensures
        r == (dlugosc_utf8(s@) > granica),
{
    let n = s.unicode_len();
    let mut suma: u64 = 0;
    let mut k: usize = 0;
    while k < n
        invariant
            n == s@.len(),
            k <= n,
            suma == dlugosc_utf8(s@.take(k as int)),
            suma <= granica,
        decreases n - k,
    {
        let c = s.get_char(k);
        proof {
            assert(s@.take(k + 1).drop_last() =~= s@.take(k as int));
        }
        let u = c as u32;
        let w: u64 = if u < 0x80 {
            1
        } else if u < 0x800 {
            2
        } else if u < 0x10000 {
            3
        } else {
            4
        };
        suma = suma + w;
        k = k + 1;
        if suma > granica as u64 {
            proof {
                lemma_dlugosc_rosnie(s@, k as int);
            }
            return true;
        }
    }
    proof {
        assert(s@.take(n as int) =~= s@);
    }
    false
}

} // verus!
