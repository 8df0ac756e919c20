use vstd::prelude::*;

verus! {

/// Why a frequency field could not be turned into a band.
#[derive(PartialEq, Eq, Debug, Clone)]
pub enum BandError {
    /// The record has no frequency at all.
    MissingFrequency,
    /// The text before the first `/` is not a plain decimal number of MHz
    /// (`[+|-] digits [. digits]`); exponents, `inf` and `nan` are not taken.
    MalformedFrequency,
    /// The number lies outside every band of the table; the token is kept.
    UnclassifiedFrequency { token: String },
}

/// A frequency in MHz, as the exact decimal that its text denotes.
/// `micro` is the magnitude in millionths of a MHz (Hz), rounded down;
/// `exact` says that nothing was rounded away.
pub struct Frequency {
    pub negative: bool,
    pub micro: nat,
    pub exact: bool,
}

pub open spec fn is_digit(c: char) -> bool {
    '0' <= c && c <= '9'
}

pub open spec fn digit_value(c: char) -> nat {
    (c as u32 - '0' as u32) as nat
}

pub open spec fn all_digits(s: Seq<char>) -> bool {
    forall|i: int| 0 <= i < s.len() ==> is_digit(#[trigger] s[i])
}

/// The number that a string of decimal digits denotes.
pub open spec fn digits_value(s: Seq<char>) -> nat
    decreases s.len(),
{
    if s.len() == 0 {
        0
    } else {
        digits_value(s.drop_last()) * 10 + digit_value(s.last())
    }
}

/// `n` is the index of the first `c` in `s`, or the length of `s` when it holds none.
pub open spec fn is_first_index(s: Seq<char>, c: char, n: int) -> bool {
    &&& 0 <= n <= s.len()
    &&& forall|i: int| 0 <= i < n ==> s[i] != c
    &&& (n == s.len() || s[n] == c)
}

pub open spec fn first_index(s: Seq<char>, c: char) -> int {
    choose|n: int| is_first_index(s, c, n)
}

/// The text before the first `/`.
pub open spec fn first_token(s: Seq<char>) -> Seq<char> {
    s.take(first_index(s, '/'))
}

pub open spec fn sign_len(t: Seq<char>) -> int {
    if t.len() > 0 && (t[0] == '+' || t[0] == '-') {
        1
    } else {
        0
    }
}

/// The fraction digits, cut or padded with zeros to six places.
pub open spec fn six_places(frac: Seq<char>) -> Seq<char> {
    Seq::new(6, |j: int| if j < frac.len() { frac[j] } else { '0' })
}

/// Every fraction digit past the sixth is a zero.
pub open spec fn zeros_past_six(frac: Seq<char>) -> bool {
    forall|i: int| 6 <= i < frac.len() ==> #[trigger] frac[i] == '0'
}

/// The frequency that a token denotes, when it has the shape
/// `[+|-] digits [. digits]` with at least one digit. This is the plain
/// decimal form a log entry is written in; scientific notation (`1.4e1`)
/// and the words `inf` and `nan` are refused as malformed.
pub open spec fn parse_frequency(t: Seq<char>) -> Option<Frequency> {
    let body = t.skip(sign_len(t));
    let d = first_index(body, '.');
    let int_part = body.take(d);
    let frac_part = if d < body.len() {
        body.skip(d + 1)
    } else {
        Seq::empty()
    };
    if all_digits(int_part) && all_digits(frac_part) && int_part.len() + frac_part.len() > 0 {
        Some(
            Frequency {
                negative: t.len() > 0 && t[0] == '-',
                micro: digits_value(int_part) * 1_000_000 + digits_value(six_places(frac_part)),
                exact: zeros_past_six(frac_part),
            },
        )
    } else {
        None
    }
}

/// The number of rows of the band table.
pub open spec fn band_count() -> int {
    33
}

/// Row `k` of the band table: lowest and highest frequency in Hz, both
/// included, and the band's name.
pub open spec fn band_row(k: int) -> (int, int, Seq<char>) {
    if k == 0 {
        (135_700, 137_800, "2190m"@)
    } else if k == 1 {
        (472_000, 479_000, "630m"@)
    } else if k == 2 {
        (501_000, 504_000, "560m"@)
    } else if k == 3 {
        (1_800_000, 2_000_000, "160m"@)
    } else if k == 4 {
        (3_500_000, 4_000_000, "80m"@)
    } else if k == 5 {
        (5_060_000, 5_450_000, "60m"@)
    } else if k == 6 {
        (7_000_000, 7_300_000, "40m"@)
    } else if k == 7 {
        (10_100_000, 10_150_000, "30m"@)
    } else if k == 8 {
        (14_000_000, 14_350_000, "20m"@)
    } else if k == 9 {
        (18_068_000, 18_168_000, "17m"@)
    } else if k == 10 {
        (21_000_000, 21_450_000, "15m"@)
    } else if k == 11 {
        (24_890_000, 24_990_000, "12m"@)
    } else if k == 12 {
        (28_000_000, 29_700_000, "10m"@)
    } else if k == 13 {
        (40_000_000, 45_000_000, "8m"@)
    } else if k == 14 {
        (50_000_000, 54_000_000, "6m"@)
    } else if k == 15 {
        (54_000_001, 69_900_000, "5m"@)
    } else if k == 16 {
        (70_000_000, 71_000_000, "4m"@)
    } else if k == 17 {
        (144_000_000, 148_000_000, "2m"@)
    } else if k == 18 {
        (222_000_000, 225_000_000, "1.25m"@)
    } else if k == 19 {
        (420_000_000, 450_000_000, "70cm"@)
    } else if k == 20 {
        (902_000_000, 928_000_000, "33cm"@)
    } else if k == 21 {
        (1_240_000_000, 1_300_000_000, "23cm"@)
    } else if k == 22 {
        (2_300_000_000, 2_450_000_000, "13cm"@)
    } else if k == 23 {
        (3_300_000_000, 3_500_000_000, "9cm"@)
    } else if k == 24 {
        (5_650_000_000, 5_925_000_000, "6cm"@)
    } else if k == 25 {
        (10_000_000_000, 10_500_000_000, "3cm"@)
    } else if k == 26 {
        (24_000_000_000, 24_250_000_000, "1.25cm"@)
    } else if k == 27 {
        (47_000_000_000, 47_200_000_000, "6mm"@)
    } else if k == 28 {
        (75_500_000_000, 81_000_000_000, "4mm"@)
    } else if k == 29 {
        (119_980_000_000, 123_000_000_000, "2.5mm"@)
    } else if k == 30 {
        (134_000_000_000, 149_000_000_000, "2mm"@)
    } else if k == 31 {
        (241_000_000_000, 250_000_000_000, "1mm"@)
    } else {
        (300_000_000_000, 7_500_000_000_000, "submm"@)
    }
}

/// The frequency lies in row `k`'s range, both ends included.
pub open spec fn in_band(f: Frequency, k: int) -> bool {
    let (low, high, _) = band_row(k);
    &&& !f.negative
    &&& low <= f.micro
    &&& (f.micro < high || (f.micro == high && f.exact))
}

/// The name of the first row at or after `k` whose range holds the frequency.
pub open spec fn band_from(f: Frequency, k: int) -> Option<Seq<char>>
    decreases band_count() - k,
{
    if k < 0 || k >= band_count() {
        None
    } else if in_band(f, k) {
        Some(band_row(k).2)
    } else {
        band_from(f, k + 1)
    }
}

/// The band of a frequency: the first row of the table that holds it.
pub open spec fn band_of(f: Frequency) -> Option<Seq<char>> {
    band_from(f, 0)
}

/// What classifying an optional frequency field gives.
pub open spec fn classify_spec(field: Option<Seq<char>>) -> Result<Seq<char>, BandError> {
    match field {
        None => Err(BandError::MissingFrequency),
        Some(s) => match parse_frequency(first_token(s)) {
            None => Err(BandError::MalformedFrequency),
            Some(f) => match band_of(f) {
                Some(name) => Ok(name),
                None => Err(BandError::UnclassifiedFrequency { token: arbitrary() }),
            },
        },
    }
}

/// The result of classifying matches `classify_spec`, the token of an
/// unclassified frequency being the text before the first `/`.
pub open spec fn classified_as(
    field: Option<Seq<char>>,
    r: Result<&'static str, BandError>,
) -> bool {
    match classify_spec(field) {
        Ok(name) => r matches Ok(label) && label@ == name,
        Err(BandError::UnclassifiedFrequency { .. }) => r matches Err(
            BandError::UnclassifiedFrequency { token },
        ) && token@ == first_token(field->Some_0),
        Err(e) => r == Err::<&'static str, BandError>(e),
    }
}

proof fn lemma_first_index(s: Seq<char>, c: char, n: int)
    requires
        is_first_index(s, c, n),
    ensures
        first_index(s, c) == n,
{
    let m = first_index(s, c);
    assert(is_first_index(s, c, m));
    if m < n {
        assert(s[m] != c);
    } else if m > n {
        assert(s[n] != c);
    }
}

proof fn lemma_rows_ordered(j: int)
    requires
        0 <= j < band_count(),
    ensures
        band_row(j).0 <= band_row(j).1,
        j + 1 < band_count() ==> band_row(j).1 < band_row(j + 1).0,
        band_row(j).1 <= 7_500_000_000_000,
{
}

proof fn lemma_rows_sorted(j: int, k: int)
    requires
        0 <= j < k < band_count(),
    ensures
        band_row(j).1 < band_row(k).0,
    decreases k - j,
{
    lemma_rows_ordered(j);
    if j + 1 < k {
        lemma_rows_sorted(j + 1, k);
        lemma_rows_ordered(j + 1);
    }
}

proof fn lemma_band_from_in_band(f: Frequency, i: int, k: int)
    requires
        0 <= i <= k < band_count(),
        in_band(f, k),
    ensures
        band_from(f, i) == Some(band_row(k).2),
    decreases k - i,
{
    if i < k {
        lemma_rows_sorted(i, k);
        lemma_band_from_in_band(f, i + 1, k);
    }
}

proof fn lemma_band_from_above(f: Frequency, i: int)
    requires
        0 <= i,
        f.micro > 7_500_000_000_000,
    ensures
        band_from(f, i) == None::<Seq<char>>,
    decreases band_count() - i,
{
    if i < band_count() {
        lemma_rows_ordered(i);
        lemma_band_from_above(f, i + 1);
    }
}

/// Every frequency inside the range of a row of the band table is
/// classified as that row's band.
pub proof fn lemma_in_range_gives_band(f: Frequency, k: int)
    requires
        0 <= k < band_count(),
        in_band(f, k),
    ensures
        band_of(f) == Some(band_row(k).2),
{
    lemma_band_from_in_band(f, 0, k);
}

/// Row `k` of the band table, in Hz.
fn band_table_row(k: usize) -> (r: (u64, u64, &'static str))
    requires
        k < band_count(),
    ensures
        r.0 == band_row(k as int).0,
        r.1 == band_row(k as int).1,
        r.2@ == band_row(k as int).2,
{
    if k == 0 {
        (135_700, 137_800, "2190m")
    } else if k == 1 {
        (472_000, 479_000, "630m")
    } else if k == 2 {
        (501_000, 504_000, "560m")
    } else if k == 3 {
        (1_800_000, 2_000_000, "160m")
    } else if k == 4 {
        (3_500_000, 4_000_000, "80m")
    } else if k == 5 {
        (5_060_000, 5_450_000, "60m")
    } else if k == 6 {
        (7_000_000, 7_300_000, "40m")
    } else if k == 7 {
        (10_100_000, 10_150_000, "30m")
    } else if k == 8 {
        (14_000_000, 14_350_000, "20m")
    } else if k == 9 {
        (18_068_000, 18_168_000, "17m")
    } else if k == 10 {
        (21_000_000, 21_450_000, "15m")
    } else if k == 11 {
        (24_890_000, 24_990_000, "12m")
    } else if k == 12 {
        (28_000_000, 29_700_000, "10m")
    } else if k == 13 {
        (40_000_000, 45_000_000, "8m")
    } else if k == 14 {
        (50_000_000, 54_000_000, "6m")
    } else if k == 15 {
        (54_000_001, 69_900_000, "5m")
    } else if k == 16 {
        (70_000_000, 71_000_000, "4m")
    } else if k == 17 {
        (144_000_000, 148_000_000, "2m")
    } else if k == 18 {
        (222_000_000, 225_000_000, "1.25m")
    } else if k == 19 {
        (420_000_000, 450_000_000, "70cm")
    } else if k == 20 {
        (902_000_000, 928_000_000, "33cm")
    } else if k == 21 {
        (1_240_000_000, 1_300_000_000, "23cm")
    } else if k == 22 {
        (2_300_000_000, 2_450_000_000, "13cm")
    } else if k == 23 {
        (3_300_000_000, 3_500_000_000, "9cm")
    } else if k == 24 {
        (5_650_000_000, 5_925_000_000, "6cm")
    } else if k == 25 {
        (10_000_000_000, 10_500_000_000, "3cm")
    } else if k == 26 {
        (24_000_000_000, 24_250_000_000, "1.25cm")
    } else if k == 27 {
        (47_000_000_000, 47_200_000_000, "6mm")
    } else if k == 28 {
        (75_500_000_000, 81_000_000_000, "4mm")
    } else if k == 29 {
        (119_980_000_000, 123_000_000_000, "2.5mm")
    } else if k == 30 {
        (134_000_000_000, 149_000_000_000, "2mm")
    } else if k == 31 {
        (241_000_000_000, 250_000_000_000, "1mm")
    } else {
        (300_000_000_000, 7_500_000_000_000, "submm")
    }
}

/// The view of an optional text field.
pub open spec fn text_of(o: &Option<String>) -> Option<Seq<char>> {
    match o {
        Some(s) => Some(s@),
        None => None,
    }
}

proof fn lemma_digits_step(s: Seq<char>, i: int)
    requires
        0 <= i < s.len(),
    ensures
        digits_value(s.take(i + 1)) == digits_value(s.take(i)) * 10 + digit_value(s[i]),
{
    assert(s.take(i + 1).drop_last() =~= s.take(i));
}

proof fn lemma_digits_bound(s: Seq<char>)
    requires
        all_digits(s),
        s.len() <= 6,
    ensures
        digits_value(s) < 1_000_000,
        s.len() <= 5 ==> digits_value(s) < 100_000,
        s.len() <= 4 ==> digits_value(s) < 10_000,
        s.len() <= 3 ==> digits_value(s) < 1_000,
        s.len() <= 2 ==> digits_value(s) < 100,
        s.len() <= 1 ==> digits_value(s) < 10,
    decreases s.len(),
{
    if s.len() > 0 {
        assert(is_digit(s[s.len() - 1]));
        assert(all_digits(s.drop_last()));
        lemma_digits_bound(s.drop_last());
    }
}

fn char_is_digit(c: char) -> (r: bool)
    ensures
        r == is_digit(c),
{
    '0' <= c && c <= '9'
}

fn char_digit(c: char) -> (r: u64)
    requires
        is_digit(c),
    ensures
        r == digit_value(c),
        r < 10,
{
    (c as u32 - '0' as u32) as u64
}

/// The characters of `s` before its first `/`.
fn token_chars(s: &str) -> (t: Vec<char>)
    ensures
        t@ == first_token(s@),
        t@ == s@.take(t@.len() as int),
        t@.len() <= s@.len(),
{
    let n = s.unicode_len();
    let mut t: Vec<char> = Vec::new();
    let mut i: usize = 0;
    while i < n && s.get_char(i) != '/'
        invariant
            n == s@.len(),
            i <= n,
            t@ == s@.take(i as int),
            forall|j: int| 0 <= j < i ==> s@[j] != '/',
        decreases n - i,
    {
        let c = s.get_char(i);
        t.push(c);
        i = i + 1;
        assert(t@ =~= s@.take(i as int));
    }
    proof {
        lemma_first_index(s@, '/', i as int);
    }
    t
}

/// The value of the digits `t[from..to]`, cut at `100_000_000`; `None`
/// when one of them is not a digit.
fn digits_capped(t: &Vec<char>, from: usize, to: usize) -> (r: Option<u64>)
    requires
        from <= to <= t@.len(),
    ensures
        r is None <==> !all_digits(t@.subrange(from as int, to as int)),
        r matches Some(v) ==> v <= 100_000_000 && (v == digits_value(
            t@.subrange(from as int, to as int),
        ) || (v == 100_000_000 && digits_value(t@.subrange(from as int, to as int))
            >= 100_000_000)),
{
    let ghost part = t@.subrange(from as int, to as int);
    let mut value: u64 = 0;
    let mut i: usize = from;
    while i < to
        invariant
            from <= i <= to <= t@.len(),
            part == t@.subrange(from as int, to as int),
            all_digits(part.take(i - from)),
            value <= 100_000_000,
            value == 100_000_000 || value == digits_value(part.take(i - from)),
            value == 100_000_000 ==> digits_value(part.take(i - from)) >= 100_000_000,
        decreases to - i,
    {
        let c = t[i];
        assert(part[i - from] == c);
        if !char_is_digit(c) {
            assert(!all_digits(part));
            return None;
        }
        let dv = char_digit(c);
        proof {
            lemma_digits_step(part, i - from);
            assert(part.take(i - from + 1) =~= part.take(i - from).push(c));
        }
        if value < 10_000_000 {
            value = value * 10 + dv;
        } else {
            value = 100_000_000;
        }
        i = i + 1;
    }
    assert(part.take(to - from) =~= part);
    Some(value)
}

/// The first six fraction digits `t[from..]`, padded with zeros, as a number.
fn six_places_value(t: &Vec<char>, from: usize) -> (r: u64)
    requires
        from <= t@.len(),
        all_digits(t@.subrange(from as int, t@.len() as int)),
    ensures
        r == digits_value(six_places(t@.subrange(from as int, t@.len() as int))),
        r < 1_000_000,
{
    let n = t.len();
    let ghost frac = t@.subrange(from as int, n as int);
    let ghost six = six_places(frac);
    assert(all_digits(six)) by {
        assert forall|j: int| 0 <= j < six.len() implies is_digit(#[trigger] six[j]) by {
            if j < frac.len() {
                assert(is_digit(frac[j]));
            }
        }
    }
    let mut value: u64 = 0;
    let mut k: usize = 0;
    while k < 6
        invariant
            k <= 6,
            from <= n == t@.len(),
            frac == t@.subrange(from as int, n as int),
            six == six_places(frac),
            all_digits(six),
            value == digits_value(six.take(k as int)),
        decreases 6 - k,
    {
        proof {
            lemma_digits_bound(six.take(k as int));
            lemma_digits_step(six, k as int);
        }
        let c = if k < n - from {
            t[from + k]
        } else {
            '0'
        };
        assert(c == six[k as int]);
        value = value * 10 + char_digit(c);
        k = k + 1;
    }
    assert(six.take(6) =~= six);
    proof {
        lemma_digits_bound(six);
    }
    value
}

/// Whether every digit of `t[from..]` past the sixth is a zero.
fn nothing_past_six(t: &Vec<char>, from: usize) -> (r: bool)
    requires
        from <= t@.len(),
    ensures
        r == zeros_past_six(t@.subrange(from as int, t@.len() as int)),
{
    let n = t.len();
    let ghost frac = t@.subrange(from as int, n as int);
    let mut exact = true;
    let mut e: usize = from;
    while e < n
        invariant
            from <= e <= n == t@.len(),
            frac == t@.subrange(from as int, n as int),
            exact == (forall|q: int| 6 <= q < e - from ==> #[trigger] frac[q] == '0'),
        decreases n - e,
    {
        assert(frac[e - from] == t@[e as int]);
        if e - from >= 6 && t[e] != '0' {
            exact = false;
        }
        e = e + 1;
    }
    exact
}

/// Reads a token as a frequency. The magnitude comes back in Hz; above
/// `7_500_000_000_000` Hz, where no band lies, it may be cut down.
fn parse_token(t: &Vec<char>) -> (r: Option<(bool, u64, bool)>)
    ensures
        match parse_frequency(t@) {
            None => r is None,
            Some(f) => r matches Some((neg, micro, exact)) && neg == f.negative && exact
                == f.exact && (micro == f.micro || (micro > 7_500_000_000_000 && f.micro
                > 7_500_000_000_000)),
        },
{
    let n = t.len();
    let negative = n > 0 && t[0] == '-';
    let start: usize = if n > 0 && (t[0] == '+' || t[0] == '-') {
        1
    } else {
        0
    };
    let ghost body = t@.skip(start as int);
    assert(start as int == sign_len(t@));
    let mut d: usize = start;
    while d < n && t[d] != '.'
        invariant
            start <= d <= n,
            n == t@.len(),
            forall|j: int| start <= j < d ==> t@[j] != '.',
        decreases n - d,
    {
        d = d + 1;
    }
    proof {
        assert(is_first_index(body, '.', d - start));
        lemma_first_index(body, '.', d - start);
    }
    let frac_start: usize = if d < n {
        d + 1
    } else {
        n
    };
    let ghost int_part = t@.subrange(start as int, d as int);
    let ghost frac_part = t@.subrange(frac_start as int, n as int);
    assert(int_part =~= body.take(d - start));
    assert(d < n ==> frac_part =~= body.skip(d - start + 1));
    assert(d >= n ==> frac_part =~= Seq::<char>::empty());
    if d - start + (n - frac_start) == 0 {
        return None;
    }
    let int_value = match digits_capped(t, start, d) {
        None => return None,
        Some(v) => v,
    };
    match digits_capped(t, frac_start, n) {
        None => return None,
        Some(_) => {},
    }
    let frac_value = six_places_value(t, frac_start);
    let exact = nothing_past_six(t, frac_start);
    let ghost f = parse_frequency(t@)->Some_0;
    assert(parse_frequency(t@) is Some);
    assert(f.exact == exact) by {
        let spec_frac = if d - start < body.len() {
            body.skip(d - start + 1)
        } else {
            Seq::empty()
        };
        assert(spec_frac =~= frac_part);
    }
    Some((negative, int_value * 1_000_000 + frac_value, exact))
}


/// The band of a parsed frequency.
fn band_lookup(negative: bool, micro: u64, exact: bool, Ghost(f): Ghost<Frequency>) -> (r: Option<
    &'static str,
>)
    requires
        f.negative == negative,
        f.exact == exact,
        micro == f.micro || (micro > 7_500_000_000_000 && f.micro > 7_500_000_000_000),
    ensures
        match band_of(f) {
            Some(name) => r matches Some(label) && label@ == name,
            None => r is None,
        },
{
    if micro > 7_500_000_000_000 {
        proof {
            lemma_band_from_above(f, 0);
        }
        return None;
    }
    let mut k: usize = 0;
    while k < 33
        invariant
            k <= 33,
            micro == f.micro,
            f.negative == negative,
            f.exact == exact,
            band_from(f, 0) == band_from(f, k as int),
        decreases 33 - k,
    {
        let (low, high, name) = band_table_row(k);
        if !negative && low <= micro && (micro < high || (micro == high && exact)) {
            return Some(name);
        }
        k = k + 1;
    }
    None
}

/// The band that a frequency field falls in: the text before the first
/// `/` is read as a plain decimal number of MHz (no exponent) and looked up
/// in the band table. The number is read exactly, not rounded to a float.
pub fn classify_band(freq: &Option<String>) -> (r: Result<&'static str, BandError>)
    ensures
        classified_as(text_of(freq), r),
{
    match freq {
        None => Err(BandError::MissingFrequency),
        Some(s) => {
            let t = token_chars(s.as_str());
            match parse_token(&t) {
                None => Err(BandError::MalformedFrequency),
                Some((negative, micro, exact)) => {
                    let ghost f = parse_frequency(t@)->Some_0;
                    match band_lookup(negative, micro, exact, Ghost(f)) {
                        Some(name) => Ok(name),
                        None => {
                            let token = String::from_str(s.as_str().substring_char(0, t.len()));
                            assert(token@ =~= first_token(s@));
                            Err(BandError::UnclassifiedFrequency { token })
                        },
                    }
                },
            }
        },
    }
}

} // verus!
