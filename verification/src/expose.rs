//! The text exposition format of the pull endpoint.
//!
//! Every pull re-encodes the live snapshot: one `# HELP` line, one `# TYPE`
//! line and one value line per sample, in registration order. Counter values
//! are decimal integers; gauge values are fixed-point numbers in thousandths,
//! printed with the shortest fraction (`2500` prints as `2.5`, `3000` as `3`).
//!
//! The encoding loses nothing: the value renderings are proved to round-trip
//! through their parsing functions.

use vstd::prelude::*;
use vstd::string::StringExecFns;

use crate::registry::MetricKind;
use crate::registry::MetricSample;
use crate::registry::MetricValue;
use crate::registry::SampleModel;

verus! {

/// The decimal digit with value `d` (`d < 10`; larger values clamp to `'9'`).
pub open spec fn digit_char(d: nat) -> char {
    if d == 0 {
        '0'
    } else if d == 1 {
        '1'
    } else if d == 2 {
        '2'
    } else if d == 3 {
        '3'
    } else if d == 4 {
        '4'
    } else if d == 5 {
        '5'
    } else if d == 6 {
        '6'
    } else if d == 7 {
        '7'
    } else if d == 8 {
        '8'
    } else {
        '9'
    }
}

/// The value of a decimal digit; zero on anything that is not a digit.
pub open spec fn digit_val(c: char) -> nat {
    if c == '0' {
        0
    } else if c == '1' {
        1
    } else if c == '2' {
        2
    } else if c == '3' {
        3
    } else if c == '4' {
        4
    } else if c == '5' {
        5
    } else if c == '6' {
        6
    } else if c == '7' {
        7
    } else if c == '8' {
        8
    } else if c == '9' {
        9
    } else {
        0
    }
}

pub open spec fn is_digit(c: char) -> bool {
    c == '0' || c == '1' || c == '2' || c == '3' || c == '4' || c == '5' || c == '6' || c == '7'
        || c == '8' || c == '9'
}

/// The usual decimal rendering of a natural number, most significant digit
/// first, no leading zeroes (except for zero itself).
pub open spec fn dec_of(n: nat) -> Seq<char>
    decreases n,
{
    if n < 10 {
        seq![digit_char(n)]
    } else {
        dec_of(n / 10).push(digit_char(n % 10))
    }
}

/// The rendering of a non-negative gauge content of `m` thousandths:
/// the integer part, then, when the fraction is not zero, a dot and the
/// fraction with trailing zeroes trimmed.
pub open spec fn nonneg_gauge_text(m: nat) -> Seq<char> {
    if m % 1000 == 0 {
        dec_of(m / 1000)
    } else {
        dec_of(m / 1000) + seq!['.'] + frac_text(m % 1000)
    }
}

/// The fraction digits of a gauge, trailing zeroes trimmed
/// (`fp` is in thousandths, `1 <= fp <= 999`).
pub open spec fn frac_text(fp: nat) -> Seq<char> {
    let d1 = fp / 100;
    let d2 = (fp / 10) % 10;
    let d3 = fp % 10;
    if d3 != 0 {
        seq![digit_char(d1), digit_char(d2), digit_char(d3)]
    } else if d2 != 0 {
        seq![digit_char(d1), digit_char(d2)]
    } else {
        seq![digit_char(d1)]
    }
}

/// The rendering of a gauge content of `g` thousandths, negative values
/// with a leading minus sign.
pub open spec fn gauge_text(g: int) -> Seq<char> {
    if g < 0 {
        seq!['-'] + nonneg_gauge_text((-g) as nat)
    } else {
        nonneg_gauge_text(g as nat)
    }
}

/// The rendering of one sample value.
pub open spec fn value_text(v: MetricValue) -> Seq<char> {
    match v {
        MetricValue::Counter(c) => dec_of(c as nat),
        MetricValue::Gauge(g) => gauge_text(g as int),
    }
}

/// The type word of the `# TYPE` line.
pub open spec fn kind_text(k: MetricKind) -> Seq<char> {
    match k {
        MetricKind::Counter => "counter"@,
        MetricKind::Gauge => "gauge"@,
    }
}

/// The full HELP/TYPE/value block of one sample.
pub open spec fn sample_block(s: SampleModel) -> Seq<char> {
    "# HELP "@ + s.name + " "@ + s.help + "\n"@ + "# TYPE "@ + s.name + " "@ + kind_text(
        s.value.spec_kind(),
    ) + "\n"@ + s.name + " "@ + value_text(s.value) + "\n"@
}

/// The whole exposition body: one block per sample, in order.
pub open spec fn encode_seq(ss: Seq<SampleModel>) -> Seq<char>
    decreases ss.len(),
{
    if ss.len() == 0 {
        Seq::empty()
    } else {
        sample_block(ss[0]) + encode_seq(ss.drop_first())
    }
}

proof fn lemma_encode_seq_snoc(ss: Seq<SampleModel>)
    requires
        ss.len() > 0,
    ensures
        encode_seq(ss) =~= encode_seq(ss.drop_last()) + sample_block(ss.last()),
    decreases ss.len(),
{
    if ss.len() == 1 {
        assert(ss.drop_last() =~= Seq::empty());
        assert(ss.drop_first() =~= Seq::empty());
        assert(encode_seq(ss) =~= encode_seq(ss.drop_last()) + sample_block(ss.last()));
    } else {
        let d = ss.drop_first();
        lemma_encode_seq_snoc(d);
        assert(d.last() == ss.last());
        assert(d.drop_last() =~= ss.drop_last().drop_first());
        assert(ss.drop_last()[0] == ss[0]);
        assert(encode_seq(ss.drop_last()) == sample_block(ss[0]) + encode_seq(
            ss.drop_last().drop_first(),
        ));
        assert(encode_seq(ss) == sample_block(ss[0]) + encode_seq(d));
        assert(encode_seq(ss) =~= sample_block(ss[0]) + (encode_seq(ss.drop_last().drop_first())
            + sample_block(ss.last())));
        assert(encode_seq(ss) =~= (sample_block(ss[0]) + encode_seq(ss.drop_last().drop_first()))
            + sample_block(ss.last()));
        assert(encode_seq(ss) =~= encode_seq(ss.drop_last()) + sample_block(ss.last()));
    }
}

fn digit_str(d: u64) -> (r: &'static str)
    requires
        d < 10,
    ensures
        r@ =~= seq![digit_char(d as nat)],
{
    proof {
        reveal_strlit("0");
        reveal_strlit("1");
        reveal_strlit("2");
        reveal_strlit("3");
        reveal_strlit("4");
        reveal_strlit("5");
        reveal_strlit("6");
        reveal_strlit("7");
        reveal_strlit("8");
        reveal_strlit("9");
    }
    match d {
        0 => "0",
        1 => "1",
        2 => "2",
        3 => "3",
        4 => "4",
        5 => "5",
        6 => "6",
        7 => "7",
        8 => "8",
        _ => "9",
    }
}

/// Renders a counter value as decimal text.
pub fn format_u64(n: u64) -> (s: String)
    ensures
        s@ =~= dec_of(n as nat),
    decreases n,
{
    if n < 10 {
        let mut s = String::new();
        s.append(digit_str(n));
        s
    } else {
        let mut s = format_u64(n / 10);
        s.append(digit_str(n % 10));
        s
    }
}

/// Renders a gauge content of `g` thousandths as fixed-point decimal text.
pub fn format_gauge(g: i64) -> (s: String)
    ensures
        s@ =~= gauge_text(g as int),
{
    proof {
        reveal_strlit("-");
        reveal_strlit(".");
    }
    let mut s = String::new();
    let m: u64 = if g >= 0 {
        g as u64
    } else {
        s.append("-");
        (-(g as i128)) as u64
    };
    assert(m == if g >= 0 { g as int } else { -(g as int) });
    let ip = m / 1000;
    let fp = m % 1000;
    let ips = format_u64(ip);
    s.append(ips.as_str());
    if fp != 0 {
        s.append(".");
        let d1 = fp / 100;
        let d2 = (fp / 10) % 10;
        let d3 = fp % 10;
        if d3 != 0 {
            s.append(digit_str(d1));
            s.append(digit_str(d2));
            s.append(digit_str(d3));
        } else if d2 != 0 {
            s.append(digit_str(d1));
            s.append(digit_str(d2));
        } else {
            s.append(digit_str(d1));
        }
    }
    s
}

fn append_value(out: &mut String, v: MetricValue)
    ensures
        final(out)@ =~= old(out)@ + value_text(v),
{
    match v {
        MetricValue::Counter(c) => {
            let t = format_u64(c);
            out.append(t.as_str());
        },
        MetricValue::Gauge(g) => {
            let t = format_gauge(g);
            out.append(t.as_str());
        },
    }
}

fn append_sample(out: &mut String, s: &MetricSample)
    ensures
        final(out)@ =~= old(out)@ + sample_block(s@),
{
    out.append("# HELP ");
    out.append(s.name().as_str());
    out.append(" ");
    out.append(s.help().as_str());
    out.append("\n");
    out.append("# TYPE ");
    out.append(s.name().as_str());
    out.append(" ");
    let v = s.value();
    match v.kind() {
        MetricKind::Counter => out.append("counter"),
        MetricKind::Gauge => out.append("gauge"),
    }
    out.append("\n");
    out.append(s.name().as_str());
    out.append(" ");
    append_value(out, v);
    out.append("\n");
}

/// The models of a vector of samples, in order.
pub open spec fn models(v: Seq<MetricSample>) -> Seq<SampleModel> {
    v.map(|i: int, s: MetricSample| s@)
}

/// Encodes a snapshot into the full exposition body: one HELP/TYPE/value
/// block per sample, in registration order. Pure: reads the snapshot alone.
pub fn encode(snapshot: &Vec<MetricSample>) -> (out: String)
    ensures
        out@ =~= encode_seq(models(snapshot@)),
{
    let n = snapshot.len();
    let mut out = String::new();
    let mut i: usize = 0;
    while i < n
        invariant
            n == snapshot@.len(),
            i <= n,
            out@ =~= encode_seq(models(snapshot@).take(i as int)),
        decreases n - i,
    {
        append_sample(&mut out, &snapshot[i]);
        proof {
            let ms = models(snapshot@);
            lemma_encode_seq_snoc(ms.take(i + 1 as int));
            assert(ms.take(i + 1 as int).drop_last() =~= ms.take(i as int));
            assert(ms.take(i + 1 as int).last() == snapshot@[i as int]@);
        }
        i += 1;
    }
    proof {
        assert(models(snapshot@).take(n as int) =~= models(snapshot@));
    }
    out
}

/// The numeric value of a decimal digit string, read left to right.
pub open spec fn parse_dec(s: Seq<char>) -> nat
    decreases s.len(),
{
    if s.len() == 0 {
        0
    } else {
        parse_dec(s.drop_last()) * 10 + digit_val(s.last())
    }
}

/// Every character of `s` is a decimal digit.
pub open spec fn all_digits(s: Seq<char>) -> bool {
    forall|i: int| 0 <= i < s.len() ==> is_digit(s[i])
}

proof fn lemma_dec_of_digits(n: nat)
    ensures
        all_digits(dec_of(n)),
        dec_of(n).len() >= 1,
    decreases n,
{
    if n < 10 {
        assert(is_digit(digit_char(n)));
    } else {
        lemma_dec_of_digits(n / 10);
        let t = dec_of(n / 10).push(digit_char(n % 10));
        assert(is_digit(digit_char(n % 10)));
        assert forall|i: int| 0 <= i < t.len() implies is_digit(t[i]) by {
            if i < t.len() - 1 {
                assert(t[i] == dec_of(n / 10)[i]);
            }
        }
    }
}

/// Law: the decimal rendering of a counter value round-trips: parsing the
/// rendering of `n` yields `n` again.
pub proof fn lemma_dec_round_trip(n: nat)
    ensures
        parse_dec(dec_of(n)) == n,
    decreases n,
{
    if n < 10 {
        let s = dec_of(n);
        assert(s =~= seq![digit_char(n)]);
        assert(s.len() == 1);
        assert(parse_dec(s) == parse_dec(s.drop_last()) * 10 + digit_val(s.last()));
        assert(s.drop_last() =~= Seq::<char>::empty());
        assert(parse_dec(Seq::<char>::empty()) == 0);
        assert(s.last() == digit_char(n));
        assert(digit_val(digit_char(n)) == n);
        assert(parse_dec(s) == n);
    } else {
        lemma_dec_round_trip(n / 10);
        let s = dec_of(n);
        assert(s.len() > 0);
        assert(parse_dec(s) == parse_dec(s.drop_last()) * 10 + digit_val(s.last()));
        assert(s.drop_last() =~= dec_of(n / 10));
        assert(s.last() == digit_char(n % 10));
        assert(digit_val(digit_char(n % 10)) == n % 10);
        assert(parse_dec(s) == (n / 10) * 10 + n % 10);
        assert(parse_dec(s) == n);
    }
}

/// The index of the first dot of `s`, or its length when it has none.
pub open spec fn find_dot(s: Seq<char>) -> int
    decreases s.len(),
{
    if s.len() == 0 {
        0
    } else if s[0] == '.' {
        0
    } else {
        1 + find_dot(s.drop_first())
    }
}

proof fn lemma_find_dot_no_dot(s: Seq<char>)
    requires
        forall|i: int| 0 <= i < s.len() ==> s[i] != '.',
    ensures
        find_dot(s) == s.len(),
    decreases s.len(),
{
    if s.len() > 0 {
        lemma_find_dot_no_dot(s.drop_first());
    }
}

proof fn lemma_find_dot_concat(a: Seq<char>, b: Seq<char>)
    requires
        forall|i: int| 0 <= i < a.len() ==> a[i] != '.',
    ensures
        find_dot(a + b) == a.len() + find_dot(b),
    decreases a.len(),
{
    if a.len() == 0 {
        assert(a + b =~= b);
    } else {
        assert((a + b)[0] == a[0]);
        lemma_find_dot_concat(a.drop_first(), b);
        assert((a + b).drop_first() =~= a.drop_first() + b);
    }
}

/// The value, in thousandths, of up to three fraction digits.
pub open spec fn frac_val(s: Seq<char>) -> nat {
    if s.len() == 1 {
        digit_val(s[0]) * 100
    } else if s.len() == 2 {
        digit_val(s[0]) * 100 + digit_val(s[1]) * 10
    } else if s.len() == 3 {
        digit_val(s[0]) * 100 + digit_val(s[1]) * 10 + digit_val(s[2])
    } else {
        0
    }
}

/// The gauge content, in thousandths, read back from a non-negative
/// fixed-point rendering.
pub open spec fn parse_nonneg_gauge(s: Seq<char>) -> int {
    let d = find_dot(s);
    if d >= s.len() {
        parse_dec(s) * 1000 as int
    } else {
        parse_dec(s.take(d)) * 1000 + frac_val(s.skip(d + 1)) as int
    }
}

/// The gauge content, in thousandths, read back from a fixed-point
/// rendering, minus sign included.
pub open spec fn parse_gauge(s: Seq<char>) -> int {
    if s.len() > 0 && s[0] == '-' {
        -parse_nonneg_gauge(s.drop_first())
    } else {
        parse_nonneg_gauge(s)
    }
}

proof fn lemma_frac_round_trip(fp: nat)
    requires
        1 <= fp <= 999,
    ensures
        frac_val(frac_text(fp)) == fp,
{
    let d1 = fp / 100;
    let d2 = (fp / 10) % 10;
    let d3 = fp % 10;
    assert(d1 < 10 && d2 < 10 && d3 < 10);
    assert(fp / 10 / 10 == fp / 100) by {
        vstd::arithmetic::div_mod::lemma_div_denominator(fp as int, 10, 10);
    }
    assert(fp / 10 == (fp / 10 / 10) * 10 + (fp / 10) % 10);
    assert(fp == (fp / 10) * 10 + fp % 10);
    assert(fp == d1 * 100 + d2 * 10 + d3);
    assert(digit_val(digit_char(d1)) == d1);
    assert(digit_val(digit_char(d2)) == d2);
    assert(digit_val(digit_char(d3)) == d3);
}

proof fn lemma_nonneg_gauge_round_trip(m: nat)
    ensures
        parse_nonneg_gauge(nonneg_gauge_text(m)) == m,
{
    let ip = m / 1000;
    let fp = m % 1000;
    lemma_dec_of_digits(ip);
    lemma_dec_round_trip(ip);
    let a = dec_of(ip);
    assert(forall|i: int| 0 <= i < a.len() ==> a[i] != '.');
    if fp == 0 {
        lemma_find_dot_no_dot(a);
        assert(m == ip * 1000);
    } else {
        let f = frac_text(fp);
        let s = a + seq!['.'] + f;
        assert(s =~= a + (seq!['.'] + f));
        assert((seq!['.'] + f)[0] == '.');
        lemma_find_dot_concat(a, seq!['.'] + f);
        assert(find_dot(s) == a.len());
        assert(s.take(a.len() as int) =~= a);
        assert(s.skip(a.len() as int + 1) =~= f);
        lemma_frac_round_trip(fp);
        assert(m == ip * 1000 + fp);
    }
}

/// Law: the fixed-point rendering of a gauge content round-trips: parsing
/// the rendering of `g` thousandths yields `g` again.
pub proof fn lemma_gauge_round_trip(g: int)
    ensures
        parse_gauge(gauge_text(g)) == g,
{
    if g < 0 {
        let m = (-g) as nat;
        lemma_nonneg_gauge_round_trip(m);
        let s = seq!['-'] + nonneg_gauge_text(m);
        assert(s[0] == '-');
        assert(s.drop_first() =~= nonneg_gauge_text(m));
    } else {
        let m = g as nat;
        lemma_nonneg_gauge_round_trip(m);
        lemma_dec_of_digits(m / 1000);
        let s = nonneg_gauge_text(m);
        assert(s[0] == dec_of(m / 1000)[0]);
        assert(is_digit(s[0]));
        assert(s[0] != '-');
    }
}

/// Law: a sample's value rendering determines the value: rendering then
/// parsing returns the original content for both kinds of sample.
pub proof fn lemma_value_text_round_trip(v: MetricValue)
    ensures
        v is Counter ==> parse_dec(value_text(v)) == crate::registry::counter_of(v),
        v is Gauge ==> parse_gauge(value_text(v)) == crate::registry::gauge_of(v),
{
    match v {
        MetricValue::Counter(c) => {
            lemma_dec_round_trip(c as nat);
        },
        MetricValue::Gauge(g) => {
            lemma_gauge_round_trip(g as int);
        },
    }
}

/// The content-type marker of the exposition endpoint.
pub fn content_type() -> (r: &'static str)
    ensures
        r@ == "text/plain; version=0.0.4"@,
{
    "text/plain; version=0.0.4"
}

} // verus!
