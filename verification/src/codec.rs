use vstd::prelude::*;
use vstd::string::*;
use crate::settings::{default_settings_view, SettingsView, WallpaperSettings};
use crate::text::push_char;

verus! {

/// The escaping of one character inside a quoted string: quotes and
/// backslashes get a backslash prefix, everything else stands as is.
pub open spec fn esc_char(c: char) -> Seq<char> {
    if c == '"' || c == '\\' {
        seq!['\\', c]
    } else {
        seq![c]
    }
}

/// The escaping of a whole string.
pub open spec fn esc(s: Seq<char>) -> Seq<char>
    decreases s.len(),
{
    if s.len() == 0 {
        Seq::empty()
    } else {
        esc_char(s[0]) + esc(s.subrange(1, s.len() as int))
    }
}

proof fn lemma_esc_push(s: Seq<char>, c: char)
    ensures
        esc(s.push(c)) == esc(s) + esc_char(c),
    decreases s.len(),
{
    if s.len() == 0 {
        assert(s.push(c) =~= seq![c]);
        assert(s.push(c).subrange(1, 1) =~= Seq::<char>::empty());
        assert(esc(s.push(c).subrange(1, 1)) == Seq::<char>::empty());
        assert(esc(s) == Seq::<char>::empty());
        assert(esc(s.push(c)) =~= esc(s) + esc_char(c));
    } else {
        assert(s.push(c).subrange(1, s.len() as int + 1) =~= s.subrange(1, s.len() as int).push(c));
        lemma_esc_push(s.subrange(1, s.len() as int), c);
        assert(esc(s.push(c)) =~= esc(s) + esc_char(c));
    }
}

/// A decimal digit.
pub open spec fn is_digit(c: char) -> bool {
    '0' <= c && c <= '9'
}

/// The value of a decimal digit.
pub open spec fn digit_val(c: char) -> int {
    c as int - '0' as int
}

/// The character for a decimal digit value.
pub open spec fn digit_char(d: nat) -> char {
    if d == 0 {
        '0'
    } else if d == 1 {
        '1'
    } else if d == 2 {
        '2'
    } else if d == 3 {
        '3'
    } else if d == 4 {
        '4'
    } else if d == 5 {
        '5'
    } else if d == 6 {
        '6'
    } else if d == 7 {
        '7'
    } else if d == 8 {
        '8'
    } else {
        '9'
    }
}

/// The decimal numeral of a number, most significant digit first.
pub open spec fn dec_digits(n: nat) -> Seq<char>
    decreases n,
{
    if n < 10 {
        seq![digit_char(n)]
    } else {
        dec_digits(n / 10).push(digit_char(n % 10))
    }
}

/// The number a sequence of digit characters denotes.
pub open spec fn num_of_digits(d: Seq<char>) -> int
    decreases d.len(),
{
    if d.len() == 0 {
        0
    } else {
        num_of_digits(d.drop_last()) * 10 + digit_val(d.last())
    }
}

/// The text of a boolean value.
pub open spec fn bool_text(b: bool) -> Seq<char> {
    if b {
        "true"@
    } else {
        "false"@
    }
}

/// The persisted form of a settings record: one object with the five
/// fields in a fixed order, strings quoted and escaped.
pub open spec fn settings_text(v: SettingsView) -> Seq<char> {
    "{\"api_key\":\""@ + esc(v.api_key) + "\""@ + ",\"collection_id\":\""@ + esc(v.collection_id)
        + "\""@ + ",\"interval_value\":"@ + dec_digits(v.interval_value as nat)
        + ",\"interval_unit\":\""@ + esc(v.interval_unit) + "\""@ + ",\"auto_change\":"@
        + bool_text(v.auto_change) + "}"@
}

fn append_escaped(out: &mut String, s: &str)
    ensures
        final(out)@ == old(out)@ + esc(s@),
{
    let n = s.unicode_len();
    let mut i: usize = 0;
    while i < n
        invariant
            n == s@.len(),
            i <= n,
            out@ == old(out)@ + esc(s@.subrange(0, i as int)),
        decreases n - i,
    {
        let c = s.get_char(i);
        let ghost pre = s@.subrange(0, i as int);
        if c == '"' || c == '\\' {
            push_char(out, '\\');
            push_char(out, c);
        } else {
            push_char(out, c);
        }
        proof {
            lemma_esc_push(pre, c);
            assert(s@.subrange(0, i + 1 as int) =~= pre.push(c));
            assert(out@ =~= old(out)@ + esc(s@.subrange(0, i + 1 as int)));
        }
        i = i + 1;
    }
    proof {
        assert(s@.subrange(0, n as int) =~= s@);
    }
}

fn digit_to_char(d: u32) -> (c: char)
    requires
        d < 10,
    ensures
        c == digit_char(d as nat),
{
    if d == 0 {
        '0'
    } else if d == 1 {
        '1'
    } else if d == 2 {
        '2'
    } else if d == 3 {
        '3'
    } else if d == 4 {
        '4'
    } else if d == 5 {
        '5'
    } else if d == 6 {
        '6'
    } else if d == 7 {
        '7'
    } else if d == 8 {
        '8'
    } else {
        '9'
    }
}

fn append_u32(out: &mut String, n: u32)
    ensures
        final(out)@ == old(out)@ + dec_digits(n as nat),
    decreases n,
{
    if n < 10 {
        push_char(out, digit_to_char(n));
        assert(out@ =~= old(out)@ + dec_digits(n as nat));
    } else {
        append_u32(out, n / 10);
        push_char(out, digit_to_char(n % 10));
        assert(out@ =~= old(out)@ + dec_digits(n as nat));
    }
}

/// Renders a settings record in its persisted form.
pub fn encode_settings(s: &WallpaperSettings) -> (r: String)
    ensures
        r@ == settings_text(s@),
{
    let mut out = String::from_str("{\"api_key\":\"");
    append_escaped(&mut out, s.api_key.as_str());
    out.append("\"");
    out.append(",\"collection_id\":\"");
    append_escaped(&mut out, s.collection_id.as_str());
    out.append("\"");
    out.append(",\"interval_value\":");
    append_u32(&mut out, s.interval_value);
    out.append(",\"interval_unit\":\"");
    append_escaped(&mut out, s.interval_unit.as_str());
    out.append("\"");
    out.append(",\"auto_change\":");
    if s.auto_change {
        out.append("true");
    } else {
        out.append("false");
    }
    out.append("}");
    proof {
        assert(out@ =~= settings_text(s@));
    }
    out
}

/// Where a fixed literal stands at a position: just past it, when it
/// is there.
pub open spec fn expect_spec(s: Seq<char>, i: int, lit: Seq<char>) -> Option<int> {
    if 0 <= i && i + lit.len() <= s.len() && s.subrange(i, i + lit.len()) == lit {
        Some(i + lit.len())
    } else {
        None
    }
}

/// Reading a quoted string's content from a position up to its
/// closing quote, undoing the escaping; a backslash takes the next
/// character literally.
pub open spec fn take_str(s: Seq<char>, i: int) -> Option<(Seq<char>, int)>
    decreases s.len() - i,
{
    if i < 0 || i >= s.len() {
        None
    } else if s[i] == '"' {
        Some((Seq::empty(), i + 1))
    } else if s[i] == '\\' {
        if i + 1 >= s.len() {
            None
        } else {
            match take_str(s, i + 2) {
                None => None,
                Some((t, j)) => Some((seq![s[i + 1]] + t, j)),
            }
        }
    } else {
        match take_str(s, i + 1) {
            None => None,
            Some((t, j)) => Some((seq![s[i]] + t, j)),
        }
    }
}

/// The maximal run of digit characters from a position, and where it
/// ends.
pub open spec fn take_run(s: Seq<char>, i: int) -> (Seq<char>, int)
    decreases s.len() - i,
{
    if i < 0 || i >= s.len() || !is_digit(s[i]) {
        (Seq::empty(), i)
    } else {
        let (d, j) = take_run(s, i + 1);
        (seq![s[i]] + d, j)
    }
}

/// Reading a number at a position: the value of the digit run, when
/// there is one.
pub open spec fn take_num(s: Seq<char>, i: int) -> Option<(int, int)> {
    let (d, j) = take_run(s, i);
    if d.len() == 0 {
        None
    } else {
        Some((num_of_digits(d), j))
    }
}

/// The persisted-settings grammar, as a whole: each field in order,
/// the interval value within range, nothing after the closing brace.
pub open spec fn parse_settings_spec(s: Seq<char>) -> Option<SettingsView> {
    match expect_spec(s, 0, "{\"api_key\":\""@) {
        None => None,
        Some(p1) => match take_str(s, p1) {
            None => None,
            Some((api_key, p2)) => match expect_spec(s, p2, ",\"collection_id\":\""@) {
                None => None,
                Some(p3) => match take_str(s, p3) {
                    None => None,
                    Some((collection_id, p4)) => match expect_spec(
                        s,
                        p4,
                        ",\"interval_value\":"@,
                    ) {
                        None => None,
                        Some(p5) => match take_num(s, p5) {
                            None => None,
                            Some((value, p6)) => if !(0 <= value <= u32::MAX) {
                                None
                            } else {
                                match expect_spec(s, p6, ",\"interval_unit\":\""@) {
                                    None => None,
                                    Some(p7) => match take_str(s, p7) {
                                        None => None,
                                        Some((interval_unit, p8)) => match expect_spec(
                                            s,
                                            p8,
                                            ",\"auto_change\":"@,
                                        ) {
                                            None => None,
                                            Some(p9) => {
                                                let (auto_change, p10) = if expect_spec(
                                                    s,
                                                    p9,
                                                    "true"@,
                                                ) is Some {
                                                    (true, p9 + "true"@.len())
                                                } else if expect_spec(s, p9, "false"@) is Some {
                                                    (false, p9 + "false"@.len())
                                                } else {
                                                    (false, -1)
                                                };
                                                if p10 < 0 {
                                                    None
                                                } else {
                                                    match expect_spec(s, p10, "}"@) {
                                                        None => None,
                                                        Some(p11) => if p11 == s.len() {
                                                            Some(
                                                                SettingsView {
                                                                    api_key,
                                                                    collection_id,
                                                                    interval_value: value as u32,
                                                                    interval_unit,
                                                                    auto_change,
                                                                },
                                                            )
                                                        } else {
                                                            None
                                                        },
                                                    }
                                                }
                                            },
                                        },
                                    },
                                }
                            },
                        },
                    },
                },
            },
        },
    }
}

fn expect_lit(s: &str, pos: usize, lit: &str) -> (r: Option<usize>)
    ensures
        r is Some <==> expect_spec(s@, pos as int, lit@) is Some,
        r is Some ==> r->0 == pos + lit@.len() && expect_spec(s@, pos as int, lit@) == Some(
            r->0 as int,
        ),
{
    let n = s.unicode_len();
    let m = lit.unicode_len();
    if pos > n || m > n - pos {
        return None;
    }
    let mut j: usize = 0;
    while j < m
        invariant
            n == s@.len(),
            m == lit@.len(),
            pos + m <= n,
            j <= m,
            forall|k: int| 0 <= k < j ==> s@[pos + k] == lit@[k],
        decreases m - j,
    {
        if s.get_char(pos + j) != lit.get_char(j) {
            proof {
                assert(s@.subrange(pos as int, pos + m as int)[j as int] != lit@[j as int]);
            }
            return None;
        }
        j = j + 1;
    }
    proof {
        assert(s@.subrange(pos as int, pos + m as int) =~= lit@);
    }
    Some(pos + m)
}

spec fn opt_prepend(p: Seq<char>, o: Option<(Seq<char>, int)>) -> Option<(Seq<char>, int)> {
    match o {
        None => None,
        Some((t, j)) => Some((p + t, j)),
    }
}

fn parse_string_field(s: &str, pos: usize) -> (r: Option<(String, usize)>)
    ensures
        r is None ==> take_str(s@, pos as int) is None,
        r matches Some((t, j)) ==> take_str(s@, pos as int) == Some((t@, j as int)),
{
    let n = s.unicode_len();
    let mut cur = pos;
    let mut out = String::new();
    loop
        invariant
            n == s@.len(),
            pos <= cur,
            opt_prepend(out@, take_str(s@, cur as int)) == take_str(s@, pos as int),
        decreases n - cur,
    {
        if cur >= n {
            return None;
        }
        let c = s.get_char(cur);
        if c == '"' {
            proof {
                assert(out@ + Seq::<char>::empty() =~= out@);
            }
            return Some((out, cur + 1));
        }
        if c == '\\' {
            if cur + 1 >= n {
                return None;
            }
            let c2 = s.get_char(cur + 1);
            let ghost pre = out@;
            push_char(&mut out, c2);
            proof {
                let o = take_str(s@, cur + 2);
                if o is Some {
                    let p = o->0;
                    assert(pre + (seq![c2] + p.0) =~= out@ + p.0);
                }
            }
            cur = cur + 2;
        } else {
            let ghost pre = out@;
            push_char(&mut out, c);
            proof {
                let o = take_str(s@, cur + 1);
                if o is Some {
                    let p = o->0;
                    assert(pre + (seq![c] + p.0) =~= out@ + p.0);
                }
            }
            cur = cur + 1;
        }
    }
}

fn digit_at(s: &str, i: usize) -> (r: Option<u32>)
    ensures
        r is Some <==> (i < s@.len() && is_digit(s@[i as int])),
        r matches Some(d) ==> d == digit_val(s@[i as int]) && d < 10,
{
    if i < s.unicode_len() {
        let c = s.get_char(i);
        if c >= '0' && c <= '9' {
            Some(c as u32 - 48)
        } else {
            None
        }
    } else {
        None
    }
}

proof fn lemma_take_run_structure(s: Seq<char>, i: int)
    requires
        0 <= i <= s.len(),
    ensures
        i <= take_run(s, i).1 <= s.len(),
        take_run(s, i).0 == s.subrange(i, take_run(s, i).1),
        forall|k: int| i <= k < take_run(s, i).1 ==> is_digit(s[k]),
        take_run(s, i).1 == s.len() || !is_digit(s[take_run(s, i).1]),
    decreases s.len() - i,
{
    if i < s.len() && is_digit(s[i]) {
        lemma_take_run_structure(s, i + 1);
        assert(seq![s[i]] + s.subrange(i + 1, take_run(s, i + 1).1) =~= s.subrange(
            i,
            take_run(s, i + 1).1,
        ));
    } else {
        assert(take_run(s, i).0 =~= s.subrange(i, i));
    }
}

proof fn lemma_num_nonneg(d: Seq<char>)
    requires
        forall|k: int| 0 <= k < d.len() ==> is_digit(d[k]),
    ensures
        num_of_digits(d) >= 0,
    decreases d.len(),
{
    if d.len() > 0 {
        lemma_num_nonneg(d.drop_last());
    }
}

proof fn lemma_num_prefix_le(s: Seq<char>, i: int, j1: int, j2: int)
    requires
        0 <= i <= j1 <= j2 <= s.len(),
        forall|k: int| i <= k < j2 ==> is_digit(s[k]),
    ensures
        num_of_digits(s.subrange(i, j1)) <= num_of_digits(s.subrange(i, j2)),
    decreases j2 - j1,
{
    if j1 < j2 {
        lemma_num_prefix_le(s, i, j1, j2 - 1);
        let d = s.subrange(i, j2);
        assert(d.drop_last() =~= s.subrange(i, j2 - 1));
        assert(forall|k: int| 0 <= k < d.len() ==> is_digit(d[k]));
        lemma_num_nonneg(d.drop_last());
        assert(num_of_digits(d) == num_of_digits(d.drop_last()) * 10 + digit_val(d.last()));
        assert(num_of_digits(d.drop_last()) * 10 >= num_of_digits(d.drop_last()));
        assert(digit_val(d.last()) >= 0);
    }
}

fn parse_u32_field(s: &str, pos: usize) -> (r: Option<(u32, usize)>)
    ensures
        r is None ==> (take_num(s@, pos as int) is None || (take_num(s@, pos as int) matches Some(
            p,
        ) && p.0 > u32::MAX)),
        r matches Some((v, j)) ==> take_num(s@, pos as int) == Some((v as int, j as int)),
{
    let n = s.unicode_len();
    let mut dopt = digit_at(s, pos);
    if dopt.is_none() {
        return None;
    }
    let mut cur = pos;
    let mut acc: u64 = 0;
    while dopt.is_some()
        invariant
            n == s@.len(),
            pos <= cur <= n,
            forall|k: int| pos <= k < cur ==> is_digit(s@[k]),
            acc == num_of_digits(s@.subrange(pos as int, cur as int)),
            acc <= u32::MAX,
            dopt is Some <==> (cur < n && is_digit(s@[cur as int])),
            dopt matches Some(d) ==> d == digit_val(s@[cur as int]) && d < 10,
        decreases n - cur,
    {
        let d = dopt.unwrap();
        let acc2: u64 = acc * 10 + d as u64;
        let ghost run_end = take_run(s@, pos as int).1;
        proof {
            lemma_take_run_structure(s@, pos as int);
            assert(s@.subrange(pos as int, cur + 1 as int).drop_last() =~= s@.subrange(
                pos as int,
                cur as int,
            ));
            if acc2 > u32::MAX {
                if run_end < cur + 1 {
                    assert(is_digit(s@[run_end]));
                    assert(false);
                }
                lemma_num_prefix_le(s@, pos as int, cur + 1 as int, run_end);
            }
        }
        if acc2 > u32::MAX as u64 {
            return None;
        }
        acc = acc2;
        cur = cur + 1;
        dopt = digit_at(s, cur);
    }
    proof {
        lemma_take_run_structure(s@, pos as int);
        let run_end = take_run(s@, pos as int).1;
        if run_end < cur {
            assert(is_digit(s@[run_end]));
            assert(false);
        }
        if run_end > cur {
            assert(is_digit(s@[cur as int]));
            assert(false);
        }
    }
    Some((acc as u32, cur))
}

/// Reads a settings record back from its persisted form; anything
/// outside the grammar is refused.
pub fn parse_settings(text: &str) -> (r: Option<WallpaperSettings>)
    ensures
        r is None ==> parse_settings_spec(text@) is None,
        r matches Some(w) ==> parse_settings_spec(text@) == Some(w@),
{
    let p1 = match expect_lit(text, 0, "{\"api_key\":\"") {
        None => {
            return None;
        },
        Some(p) => p,
    };
    let (api_key, p2) = match parse_string_field(text, p1) {
        None => {
            return None;
        },
        Some(x) => x,
    };
    let p3 = match expect_lit(text, p2, ",\"collection_id\":\"") {
        None => {
            return None;
        },
        Some(p) => p,
    };
    let (collection_id, p4) = match parse_string_field(text, p3) {
        None => {
            return None;
        },
        Some(x) => x,
    };
    let p5 = match expect_lit(text, p4, ",\"interval_value\":") {
        None => {
            return None;
        },
        Some(p) => p,
    };
    let (interval_value, p6) = match parse_u32_field(text, p5) {
        None => {
            return None;
        },
        Some(x) => x,
    };
    let p7 = match expect_lit(text, p6, ",\"interval_unit\":\"") {
        None => {
            return None;
        },
        Some(p) => p,
    };
    let (interval_unit, p8) = match parse_string_field(text, p7) {
        None => {
            return None;
        },
        Some(x) => x,
    };
    let p9 = match expect_lit(text, p8, ",\"auto_change\":") {
        None => {
            return None;
        },
        Some(p) => p,
    };
    let (auto_change, p10) = match expect_lit(text, p9, "true") {
        Some(p) => (true, p),
        None => match expect_lit(text, p9, "false") {
            Some(p) => (false, p),
            None => {
                return None;
            },
        },
    };
    let p11 = match expect_lit(text, p10, "}") {
        None => {
            return None;
        },
        Some(p) => p,
    };
    if p11 != text.unicode_len() {
        return None;
    }
    Some(
        WallpaperSettings {
            api_key,
            collection_id,
            interval_value,
            interval_unit,
            auto_change,
        },
    )
}

proof fn lemma_take_str_round(s: Seq<char>, i: int, t: Seq<char>)
    requires
        0 <= i,
        i + esc(t).len() + 1 <= s.len(),
        s.subrange(i, i + esc(t).len()) == esc(t),
        s[i + esc(t).len()] == '"',
    ensures
        take_str(s, i) == Some((t, i + esc(t).len() + 1)),
    decreases t.len(),
{
    if t.len() == 0 {
        assert(esc(t) == Seq::<char>::empty());
        assert(s[i] == '"');
        assert(Seq::<char>::empty() =~= t);
    } else {
        let c = t[0];
        let t2 = t.subrange(1, t.len() as int);
        assert(esc(t) == esc_char(c) + esc(t2));
        let el = esc(t).len() as int;
        let el2 = esc(t2).len() as int;
        if c == '"' || c == '\\' {
            assert(s.subrange(i, i + el)[0] == '\\');
            assert(s[i] == '\\');
            assert(s.subrange(i, i + el)[1] == c);
            assert(s[i + 1] == c);
            assert(s.subrange(i + 2, i + 2 + el2) =~= esc(t2)) by {
                assert(forall|k: int|
                    0 <= k < el2 ==> s.subrange(i, i + el)[2 + k] == esc(t2)[k]);
            }
            assert(s[i + 2 + el2] == '"');
            lemma_take_str_round(s, i + 2, t2);
            assert(seq![s[i + 1]] + t2 =~= t);
        } else {
            assert(s.subrange(i, i + el)[0] == c);
            assert(s[i] == c);
            assert(s.subrange(i + 1, i + 1 + el2) =~= esc(t2)) by {
                assert(forall|k: int|
                    0 <= k < el2 ==> s.subrange(i, i + el)[1 + k] == esc(t2)[k]);
            }
            assert(s[i + 1 + el2] == '"');
            lemma_take_str_round(s, i + 1, t2);
            assert(seq![s[i]] + t2 =~= t);
        }
    }
}

proof fn lemma_dec_digits_digits(n: nat)
    ensures
        dec_digits(n).len() >= 1,
        forall|k: int| 0 <= k < dec_digits(n).len() ==> is_digit(#[trigger] dec_digits(n)[k]),
    decreases n,
{
    if n < 10 {
        assert(is_digit(digit_char(n)));
    } else {
        lemma_dec_digits_digits(n / 10);
        assert(is_digit(digit_char(n % 10)));
    }
}

proof fn lemma_num_of_dec_digits(n: nat)
    ensures
        num_of_digits(dec_digits(n)) == n,
    decreases n,
{
    if n < 10 {
        assert(dec_digits(n) == seq![digit_char(n)]);
        assert(dec_digits(n).drop_last() =~= Seq::<char>::empty());
        assert(num_of_digits(Seq::<char>::empty()) == 0);
        assert(dec_digits(n).last() == digit_char(n));
        assert(num_of_digits(dec_digits(n)) == digit_val(digit_char(n)));
    } else {
        lemma_num_of_dec_digits(n / 10);
        let d = dec_digits(n);
        assert(d.drop_last() =~= dec_digits(n / 10));
        assert(d.last() == digit_char(n % 10));
        assert(num_of_digits(d) == (n / 10) * 10 + (n % 10));
        assert((n / 10) * 10 + (n % 10) == n) by {
            vstd::arithmetic::div_mod::lemma_fundamental_div_mod(n as int, 10);
        }
    }
}

/// Saving then loading is the identity: the persisted form of any
/// settings record parses back to a record with the same five field
/// values, the escaping undone exactly.
#[verifier::rlimit(100)]
pub proof fn lemma_settings_round_trip(v: SettingsView)
    ensures
        parse_settings_spec(settings_text(v)) == Some(v),
{
    reveal_strlit("{\"api_key\":\"");
    reveal_strlit("\"");
    reveal_strlit(",\"collection_id\":\"");
    reveal_strlit(",\"interval_value\":");
    reveal_strlit(",\"interval_unit\":\"");
    reveal_strlit(",\"auto_change\":");
    reveal_strlit("true");
    reveal_strlit("false");
    reveal_strlit("}");
    let s = settings_text(v);
    let l1 = "{\"api_key\":\""@;
    let q = "\""@;
    let l2 = ",\"collection_id\":\""@;
    let l3 = ",\"interval_value\":"@;
    let l4 = ",\"interval_unit\":\""@;
    let l5 = ",\"auto_change\":"@;
    let rb = "}"@;
    let e1 = esc(v.api_key);
    let e2 = esc(v.collection_id);
    let dd = dec_digits(v.interval_value as nat);
    let e3 = esc(v.interval_unit);
    let bt = bool_text(v.auto_change);
    let p1 = l1.len() as int;
    let p2 = p1 + e1.len() + 1;
    let p3 = p2 + l2.len() as int;
    let p4 = p3 + e2.len() + 1;
    let p5 = p4 + l3.len() as int;
    let p6 = p5 + dd.len() as int;
    let p7 = p6 + l4.len() as int;
    let p8 = p7 + e3.len() + 1;
    let p9 = p8 + l5.len() as int;
    let p10 = p9 + bt.len() as int;
    let p11 = p10 + 1;
    assert(s.len() == p11);
    assert(s.subrange(0, p1) =~= l1);
    assert(expect_spec(s, 0, l1) == Some(p1));
    assert(s.subrange(p1, p1 + e1.len() as int) =~= e1);
    assert(s[p1 + e1.len()] == '"');
    lemma_take_str_round(s, p1, v.api_key);
    assert(take_str(s, p1) == Some((v.api_key, p2)));
    assert(s.subrange(p2, p3) =~= l2);
    assert(expect_spec(s, p2, l2) == Some(p3));
    assert(s.subrange(p3, p3 + e2.len() as int) =~= e2);
    assert(s[p3 + e2.len()] == '"');
    lemma_take_str_round(s, p3, v.collection_id);
    assert(take_str(s, p3) == Some((v.collection_id, p4)));
    assert(s.subrange(p4, p5) =~= l3);
    assert(expect_spec(s, p4, l3) == Some(p5));
    lemma_dec_digits_digits(v.interval_value as nat);
    assert(s.subrange(p5, p6) =~= dd);
    assert(forall|k: int| p5 <= k < p6 ==> is_digit(s[k])) by {
        assert(forall|k: int| p5 <= k < p6 ==> s[k] == dd[k - p5]);
    }
    assert(s[p6] == ',');
    assert(!is_digit(','));
    lemma_take_run_structure(s, p5);
    let run_end = take_run(s, p5).1;
    if run_end < p6 {
        assert(is_digit(s[run_end]));
        assert(false);
    }
    if run_end > p6 {
        assert(is_digit(s[p6]));
        assert(false);
    }
    assert(take_run(s, p5).0 == s.subrange(p5, p6));
    lemma_num_of_dec_digits(v.interval_value as nat);
    assert(num_of_digits(s.subrange(p5, p6)) == v.interval_value) by {
        assert(s.subrange(p5, p6) =~= dd);
    }
    assert(take_num(s, p5) == Some((v.interval_value as int, p6)));
    assert(s.subrange(p6, p7) =~= l4);
    assert(expect_spec(s, p6, l4) == Some(p7));
    assert(s.subrange(p7, p7 + e3.len() as int) =~= e3);
    assert(s[p7 + e3.len()] == '"');
    lemma_take_str_round(s, p7, v.interval_unit);
    assert(take_str(s, p7) == Some((v.interval_unit, p8)));
    assert(s.subrange(p8, p9) =~= l5);
    assert(expect_spec(s, p8, l5) == Some(p9));
    if v.auto_change {
        assert(s.subrange(p9, p9 + 4) =~= "true"@);
        assert(expect_spec(s, p9, "true"@) == Some(p9 + 4));
        assert(p10 == p9 + 4);
    } else {
        assert(s[p9] == 'f');
        if expect_spec(s, p9, "true"@) is Some {
            assert(s.subrange(p9, p9 + 4) == "true"@);
            assert(s.subrange(p9, p9 + 4)[0] == 't');
            assert(false);
        }
        assert(s.subrange(p9, p9 + 5) =~= "false"@);
        assert(expect_spec(s, p9, "false"@) == Some(p9 + 5));
        assert(p10 == p9 + 5);
    }
    assert(s.subrange(p10, p11) =~= rb);
    assert(expect_spec(s, p10, rb) == Some(p11));
    assert(parse_settings_spec(s) == Some(
        SettingsView {
            api_key: v.api_key,
            collection_id: v.collection_id,
            interval_value: v.interval_value,
            interval_unit: v.interval_unit,
            auto_change: v.auto_change,
        },
    ));
    assert(SettingsView {
        api_key: v.api_key,
        collection_id: v.collection_id,
        interval_value: v.interval_value,
        interval_unit: v.interval_unit,
        auto_change: v.auto_change,
    } == v);
}

/// Reads settings from what the durable store held: a missing or
/// malformed file yields the default record, not an error.
pub fn load_settings_from(text: Option<&str>) -> (r: WallpaperSettings)
    ensures
        (match text {
            Some(t) => parse_settings_spec(t@) is Some,
            None => false,
        }) ==> r@ == parse_settings_spec(text->0@)->0,
        (match text {
            Some(t) => parse_settings_spec(t@) is None,
            None => true,
        }) ==> r@ == default_settings_view(),
{
    match text {
        None => WallpaperSettings::default(),
        Some(t) => match parse_settings(t) {
            None => WallpaperSettings::default(),
            Some(w) => w,
        },
    }
}

} // verus!
